//! Outputs and proofs of the verifiable random function, as digests carry them.

use crate::codec::le_value;
use vstd::prelude::*;

verus! {

/// The order of the group that proofs and secret keys take their scalars from.
pub open spec fn group_order() -> nat {
    0x1000000000000000000000000000000014def9dea2f79cd65812631a5cf5d3ednat
}

/// Whether `s` writes a scalar in its only accepted form: 32 little-endian bytes of a number
/// below the order of the group.
pub open spec fn canonical_scalar(s: Seq<u8>) -> bool {
    &&& s.len() == 32
    &&& le_value(s) < group_order()
}

/// Output of the verifiable random function.
#[derive(Clone, Copy, Debug, PartialEq, Eq)]
pub struct VRFOutput {
    /// The output, as a compressed point. That it is one is not checked until it is used.
    pub bytes: [u8; 32],
}

/// Proof that an output was computed as it should be: two scalars.
#[derive(Clone, Copy, Debug, PartialEq, Eq)]
pub struct VRFProof {
    /// The two scalars, 32 bytes each.
    pub bytes: [u8; 64],
}

/// Whether `s` writes a proof: two canonical scalars.
pub open spec fn proof_bytes(s: Seq<u8>) -> bool {
    &&& s.len() == 64
    &&& canonical_scalar(s.take(32))
    &&& canonical_scalar(s.skip(32))
}

impl VRFProof {
    /// Both halves are canonical scalars.
    pub open spec fn wf(self) -> bool {
        proof_bytes(self.bytes@)
    }

    /// The proof that `bytes` writes, if it writes one.
    pub fn from_bytes(bytes: [u8; 64]) -> (r: Option<VRFProof>)
        ensures
            r is Some <==> proof_bytes(bytes@),
            r matches Some(p) ==> p.bytes == bytes && p.wf(),
    {
        if proof_accepted(&bytes) {
            Some(VRFProof { bytes })
        } else {
            None
        }
    }
}

/// Calls the conversion of 64 bytes into a `VRFProof` of `sp_consensus_vrf`, which succeeds when
/// each half is a scalar in canonical form, and in no other case. Decoding a proof goes through
/// the same check.
#[verifier::external_body]
fn proof_accepted(bytes: &[u8; 64]) -> (r: bool)
    ensures
        r == proof_bytes(bytes@),
{
    sp_consensus_vrf::schnorrkel::VRFProof::try_from(*bytes).is_ok()
}

/// The order of the group is 2^252 + 27742317777372353535851937790883648493.
pub proof fn law_group_order()
    ensures
        group_order() == vstd::arithmetic::power2::pow2(252)
            + 27742317777372353535851937790883648493,
{
    vstd::arithmetic::power2::lemma2_to64();
    vstd::arithmetic::power2::lemma2_to64_rest();
    vstd::arithmetic::power2::lemma_pow2_adds(63, 63);
    vstd::arithmetic::power2::lemma_pow2_adds(126, 126);
    let half: int = 0x8000_0000_0000_0000;
    assert(half * half == 0x4000_0000_0000_0000_0000_0000_0000_0000int) by (nonlinear_arith)
        requires
            half == 0x8000_0000_0000_0000int,
    ;
    let square: int = 0x4000_0000_0000_0000_0000_0000_0000_0000int;
    assert(square * square
        == 0x1000_0000_0000_0000_0000_0000_0000_0000_0000_0000_0000_0000_0000_0000_0000_0000int)
        by (nonlinear_arith)
        requires
            square == 0x4000_0000_0000_0000_0000_0000_0000_0000int,
    ;
}

/// A proof is two scalars, each of them written in 32 bytes and below the order of the group: both
/// have to be, and nothing else is asked.
pub proof fn law_proof_is_two_scalars(first: Seq<u8>, second: Seq<u8>, s: Seq<u8>)
    requires
        first.len() == 32,
        second.len() == 32,
    ensures
        proof_bytes(first + second) <==> le_value(first) < group_order() && le_value(second)
            < group_order(),
        canonical_scalar(first) <==> le_value(first) < group_order(),
        canonical_scalar(s) ==> s.len() == 32,
        proof_bytes(s) ==> s.len() == 64,
{
    assert((first + second).take(32) =~= first);
    assert((first + second).skip(32) =~= second);
}

} // verus!
