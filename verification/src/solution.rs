//! The solutions that farmers claim slots with, and the pre-digest that carries one.

use crate::codec::{
    append_bytes, array_at, array_of, decode_prefixed, encode_prefixed, le_bytes, le_value,
    prefixed, read_prefixed, u64_from_le, u64_to_le,
};
use crate::digest::DigestItem;
use crate::primitives::{FarmerId, PoCBlockWeight, Slot, POC_ENGINE_ID};
use vstd::prelude::*;

verus! {

/// A farmer's answer to the challenge of a slot.
#[derive(Clone, Debug, PartialEq, Eq)]
pub struct Solution {
    /// Public key of the farmer that created the solution.
    pub public_key: FarmerId,
    /// Index of the encoded piece.
    pub nonce: u64,
    /// The encoding of the piece.
    pub encoding: Vec<u8>,
    /// Signature of the tag.
    pub signature: Vec<u8>,
    /// Tag: the commitment to the encoding for a salt.
    pub tag: [u8; 8],
}

/// What a solution holds.
pub struct SolutionView {
    pub public_key: FarmerId,
    pub nonce: u64,
    pub encoding: Seq<u8>,
    pub signature: Seq<u8>,
    pub tag: [u8; 8],
}

impl View for Solution {
    type V = SolutionView;

    open spec fn view(&self) -> SolutionView {
        SolutionView {
            public_key: self.public_key,
            nonce: self.nonce,
            encoding: self.encoding@,
            signature: self.signature@,
            tag: self.tag,
        }
    }
}

/// The solution that stands in for one in the genesis block: every part of it is zero or empty.
pub open spec fn genesis_solution() -> SolutionView {
    SolutionView {
        public_key: array_of::<32>(Seq::new(32, |i: int| 0u8)),
        nonce: 0,
        encoding: Seq::empty(),
        signature: Seq::empty(),
        tag: array_of::<8>(Seq::new(8, |i: int| 0u8)),
    }
}

impl Solution {
    /// Dummy solution for the genesis block.
    pub fn get_for_genesis() -> (r: Solution)
        ensures
            r@ == genesis_solution(),
    {
        let public_key: [u8; 32] = [0u8; 32];
        let tag: [u8; 8] = [0u8; 8];
        proof {
            assert(public_key@ =~= Seq::new(32, |i: int| 0u8));
            assert(tag@ =~= Seq::new(8, |i: int| 0u8));
            crate::codec::lemma_array_of::<32>(public_key);
            crate::codec::lemma_array_of::<8>(tag);
        }
        let r = Solution {
            public_key,
            nonce: 0,
            encoding: Vec::new(),
            signature: Vec::new(),
            tag,
        };
        r
    }
}

/// The pre-runtime digest of a block whose slot was claimed with a solution.
#[derive(Clone, Debug, PartialEq, Eq)]
pub struct SolutionPreDigest {
    /// Slot
    pub slot: Slot,
    /// Solution that claims the slot.
    pub solution: Solution,
}

/// What a pre-digest with a solution holds.
pub struct SolutionPreDigestView {
    pub slot: Slot,
    pub solution: SolutionView,
}

impl View for SolutionPreDigest {
    type V = SolutionPreDigestView;

    open spec fn view(&self) -> SolutionPreDigestView {
        SolutionPreDigestView { slot: self.slot, solution: self.solution@ }
    }
}

impl SolutionPreDigestView {
    /// The byte strings are short enough to be written behind a length prefix.
    pub open spec fn wf(self) -> bool {
        &&& self.solution.encoding.len() <= u32::MAX
        &&& self.solution.signature.len() <= u32::MAX
    }

    /// The bytes that the pre-digest is written as: its parts in their order.
    pub open spec fn encoding(self) -> Seq<u8> {
        le_bytes(self.slot as nat, 8) + self.solution.public_key@ + le_bytes(
            self.solution.nonce as nat,
            8,
        ) + prefixed(self.solution.encoding) + prefixed(self.solution.signature)
            + self.solution.tag@
    }

    /// The pre-digest that some bytes start with.
    pub open spec fn decoding(s: Seq<u8>) -> Option<SolutionPreDigestView> {
        if s.len() < 48 {
            None
        } else {
            match read_prefixed(s.skip(48)) {
                None => None,
                Some((encoding, after_encoding)) => match read_prefixed(after_encoding) {
                    None => None,
                    Some((signature, after_signature)) => if after_signature.len() < 8 {
                        None
                    } else {
                        Some(
                            SolutionPreDigestView {
                                slot: le_value(s.subrange(0, 8)) as u64,
                                solution: SolutionView {
                                    public_key: array_of::<32>(s.subrange(8, 40)),
                                    nonce: le_value(s.subrange(40, 48)) as u64,
                                    encoding,
                                    signature,
                                    tag: array_of::<8>(after_signature.subrange(0, 8)),
                                },
                            },
                        )
                    },
                },
            }
        }
    }
}

/// The pre-digest with a solution that a digest item holds.
pub open spec fn solution_pre_digest_of(item: DigestItem) -> Option<SolutionPreDigestView> {
    match item.pre_runtime_data(POC_ENGINE_ID) {
        Some(data) => SolutionPreDigestView::decoding(data),
        None => None,
    }
}

impl SolutionPreDigest {
    /// Returns the weight _added_ by this digest, not the cumulative weight of the chain.
    pub fn added_weight(&self) -> (r: PoCBlockWeight)
        ensures
            r == 1,
    {
        1
    }

    /// Writes the pre-digest as bytes.
    pub fn encode(&self) -> (r: Vec<u8>)
        requires
            self@.wf(),
        ensures
            r@ == self@.encoding(),
    {
        let mut out: Vec<u8> = Vec::new();
        let slot: [u8; 8] = u64_to_le(self.slot);
        let nonce: [u8; 8] = u64_to_le(self.solution.nonce);
        let encoding: Vec<u8> = encode_prefixed(self.solution.encoding.as_slice());
        let signature: Vec<u8> = encode_prefixed(self.solution.signature.as_slice());
        append_bytes(&mut out, slot.as_slice());
        append_bytes(&mut out, self.solution.public_key.as_slice());
        append_bytes(&mut out, nonce.as_slice());
        append_bytes(&mut out, encoding.as_slice());
        append_bytes(&mut out, signature.as_slice());
        append_bytes(&mut out, self.solution.tag.as_slice());
        assert(out@ =~= self@.encoding());
        out
    }

    /// Reads the pre-digest that `s` starts with, if it starts with one.
    pub fn decode(s: &[u8]) -> (r: Option<SolutionPreDigest>)
        ensures
            match r {
                Some(d) => SolutionPreDigestView::decoding(s@) == Some(d@),
                None => SolutionPreDigestView::decoding(s@) is None,
            },
    {
        if s.len() < 48 {
            return None;
        }
        let slot: [u8; 8] = array_at::<8>(s, 0);
        let public_key: [u8; 32] = array_at::<32>(s, 8);
        let nonce: [u8; 8] = array_at::<8>(s, 40);
        let (_, after_nonce) = s.split_at(48);
        proof {
            assert(after_nonce@ =~= s@.skip(48));
            crate::codec::lemma_u64_value(slot@);
            crate::codec::lemma_u64_value(nonce@);
            crate::codec::lemma_array_of::<32>(public_key);
        }
        let (encoding, after_encoding) = match decode_prefixed(after_nonce) {
            Some(p) => p,
            None => {
                return None;
            },
        };
        let (signature, after_signature) = match decode_prefixed(after_encoding) {
            Some(p) => p,
            None => {
                return None;
            },
        };
        if after_signature.len() < 8 {
            return None;
        }
        let tag: [u8; 8] = array_at::<8>(after_signature, 0);
        proof {
            crate::codec::lemma_array_of::<8>(tag);
        }
        let solution = Solution {
            public_key,
            nonce: u64_from_le(&nonce),
            encoding,
            signature,
            tag,
        };
        Some(SolutionPreDigest { slot: u64_from_le(&slot), solution })
    }

    /// Constructs the digest item that contains this pre-digest.
    pub fn to_item(&self) -> (r: DigestItem)
        requires
            self@.wf(),
        ensures
            r matches DigestItem::PreRuntime(id, data) && id == POC_ENGINE_ID && data@
                == self@.encoding(),
    {
        DigestItem::PreRuntime(POC_ENGINE_ID, self.encode())
    }

    /// The pre-digest that a digest item holds, if it is a pre-runtime item of this engine and
    /// holds one.
    pub fn from_item(item: &DigestItem) -> (r: Option<SolutionPreDigest>)
        ensures
            match r {
                Some(d) => solution_pre_digest_of(*item) == Some(d@),
                None => solution_pre_digest_of(*item) is None,
            },
    {
        match item.as_pre_runtime(&POC_ENGINE_ID) {
            Some(data) => SolutionPreDigest::decode(data),
            None => None,
        }
    }
}

/// A pre-digest with a solution is read back from the item that was made of it.
pub proof fn law_solution_pre_digest_reads_back(digest: SolutionPreDigestView, item: DigestItem)
    requires
        digest.wf(),
        item matches DigestItem::PreRuntime(id, data) && id == POC_ENGINE_ID && data@
            == digest.encoding(),
    ensures
        solution_pre_digest_of(item) == Some(digest),
{
    let s = digest.encoding();
    let solution = digest.solution;
    let tail = prefixed(solution.signature) + solution.tag@;
    crate::codec::lemma_u64_bytes(digest.slot);
    crate::codec::lemma_u64_bytes(solution.nonce);
    crate::codec::lemma_array_of::<32>(solution.public_key);
    crate::codec::lemma_array_of::<8>(solution.tag);
    assert(s.subrange(0, 8) =~= le_bytes(digest.slot as nat, 8));
    assert(s.subrange(8, 40) =~= solution.public_key@);
    assert(s.subrange(40, 48) =~= le_bytes(solution.nonce as nat, 8));
    assert(s.skip(48) =~= prefixed(solution.encoding) + tail);
    crate::codec::law_prefixed_reads_back(solution.encoding, tail);
    crate::codec::law_prefixed_reads_back(solution.signature, solution.tag@);
    assert(solution.tag@.subrange(0, 8) =~= solution.tag@);
}

/// How a pre-digest with a solution is written: the slot, the public key, the nonce, the encoding
/// and the signature, each behind its length, and the tag.
pub proof fn law_solution_pre_digest_layout(digest: SolutionPreDigestView)
    requires
        digest.wf(),
    ensures
        ({
            let s = digest.encoding();
            &&& s.len() >= 48
            &&& le_value(s.subrange(0, 8)) == digest.slot
            &&& s.subrange(8, 40) == digest.solution.public_key@
            &&& le_value(s.subrange(40, 48)) == digest.solution.nonce
            &&& read_prefixed(s.skip(48)) matches Some((encoding, rest))
            &&& encoding == digest.solution.encoding
            &&& read_prefixed(rest) matches Some((signature, last))
            &&& signature == digest.solution.signature
            &&& last == digest.solution.tag@
        }),
{
    let s = digest.encoding();
    let solution = digest.solution;
    let tail = prefixed(solution.signature) + solution.tag@;
    crate::codec::lemma_u64_bytes(digest.slot);
    crate::codec::lemma_u64_bytes(solution.nonce);
    assert(s.subrange(0, 8) =~= le_bytes(digest.slot as nat, 8));
    assert(s.subrange(8, 40) =~= solution.public_key@);
    assert(s.subrange(40, 48) =~= le_bytes(solution.nonce as nat, 8));
    assert(s.skip(48) =~= prefixed(solution.encoding) + tail);
    crate::codec::law_prefixed_reads_back(solution.encoding, tail);
    crate::codec::law_prefixed_reads_back(solution.signature, solution.tag@);
}

/// What is read as a pre-digest starts with what the pre-digest is written as.
proof fn lemma_pre_digest_is_a_prefix(s: Seq<u8>)
    ensures
        SolutionPreDigestView::decoding(s) matches Some(digest) ==> digest.wf()
            && digest.encoding().is_prefix_of(s),
{
    if let Some(digest) = SolutionPreDigestView::decoding(s) {
        let (encoding, after_encoding) = read_prefixed(s.skip(48))->0;
        let (signature, after_signature) = read_prefixed(after_encoding)->0;
        crate::codec::law_prefixed_is_read_iff_written(s.skip(48), encoding, after_encoding);
        crate::codec::law_prefixed_is_read_iff_written(after_encoding, signature, after_signature);
        crate::codec::lemma_u64_value(s.subrange(0, 8));
        crate::codec::lemma_u64_value(s.subrange(40, 48));
        let key = crate::codec::array_from::<32>(s.subrange(8, 40));
        let tag = crate::codec::array_from::<8>(after_signature.subrange(0, 8));
        let e = digest.encoding();
        assert(s =~= s.subrange(0, 8) + s.subrange(8, 40) + s.subrange(40, 48) + s.skip(48));
        assert(s =~= e + after_signature.skip(8));
    }
}

/// A pre-digest with a solution is read from an item if and only if the item is a pre-runtime item
/// of this engine that starts with what the pre-digest is written as.
pub proof fn law_solution_pre_digest_is_read_iff_written(
    item: DigestItem,
    digest: SolutionPreDigestView,
)
    ensures
        solution_pre_digest_of(item) == Some(digest) <==> digest.wf()
            && (item matches DigestItem::PreRuntime(id, data) && id == POC_ENGINE_ID
            && digest.encoding().is_prefix_of(data@)),
{
    if let DigestItem::PreRuntime(id, data) = item {
        let s = data@;
        lemma_pre_digest_is_a_prefix(s);
        if digest.wf() && digest.encoding().is_prefix_of(s) {
            let e = digest.encoding();
            let solution = digest.solution;
            let after = s.skip(e.len() as int);
            let tail = prefixed(solution.signature) + solution.tag@ + after;
            assert(s =~= e + after);
            crate::codec::lemma_u64_bytes(digest.slot);
            crate::codec::lemma_u64_bytes(solution.nonce);
            crate::codec::lemma_array_of::<32>(solution.public_key);
            crate::codec::lemma_array_of::<8>(solution.tag);
            assert(s.subrange(0, 8) =~= le_bytes(digest.slot as nat, 8));
            assert(s.subrange(8, 40) =~= solution.public_key@);
            assert(s.subrange(40, 48) =~= le_bytes(solution.nonce as nat, 8));
            assert(s.skip(48) =~= prefixed(solution.encoding) + tail);
            crate::codec::law_prefixed_reads_back(solution.encoding, tail);
            assert(tail =~= prefixed(solution.signature) + (solution.tag@ + after));
            crate::codec::law_prefixed_reads_back(solution.signature, solution.tag@ + after);
            assert((solution.tag@ + after).subrange(0, 8) =~= solution.tag@);
        }
    }
}

/// The view of a solution, and of a pre-digest, shows every part of it as it is.
pub proof fn law_view_shows_every_part(solution: Solution, pre_digest: SolutionPreDigest)
    ensures
        solution@.public_key == solution.public_key,
        solution@.nonce == solution.nonce,
        solution@.encoding == solution.encoding@,
        solution@.signature == solution.signature@,
        solution@.tag == solution.tag,
        pre_digest@.slot == pre_digest.slot,
        pre_digest@.solution == pre_digest.solution@,
{
}


} // verus!
