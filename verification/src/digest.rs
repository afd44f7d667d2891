//! Block headers, as far as the engine reads them, and the digest items in them.

use crate::codec::bytes_eq;
use crate::primitives::{BlockNumber, ConsensusEngineId, BlockHash};
use vstd::prelude::*;

verus! {

/// One entry of a header's digest.
#[derive(Clone, Debug, PartialEq, Eq)]
pub enum DigestItem {
    /// A message from a consensus engine to the runtime.
    PreRuntime(ConsensusEngineId, Vec<u8>),
    /// A message from the runtime to a consensus engine.
    Consensus(ConsensusEngineId, Vec<u8>),
    /// The seal of the block's author.
    Seal(ConsensusEngineId, Vec<u8>),
    /// Anything else that carries bytes.
    Other(Vec<u8>),
    /// The runtime's environment has changed.
    RuntimeEnvironmentUpdated,
}

/// A block header.
#[derive(Clone, Debug, PartialEq, Eq)]
pub struct Header {
    /// The hash of the header.
    pub hash: BlockHash,
    /// The hash of the parent's header.
    pub parent_hash: BlockHash,
    /// The number of the block.
    pub number: BlockNumber,
    /// The digest items, in the order in which the header holds them.
    pub digest: Vec<DigestItem>,
}

impl DigestItem {
    /// The bytes of a pre-runtime item of the engine `id`.
    pub open spec fn pre_runtime_data(self, id: ConsensusEngineId) -> Option<Seq<u8>> {
        match self {
            DigestItem::PreRuntime(engine, data) if engine == id => Some(data@),
            _ => None,
        }
    }

    /// The bytes of a consensus item of the engine `id`.
    pub open spec fn consensus_data(self, id: ConsensusEngineId) -> Option<Seq<u8>> {
        match self {
            DigestItem::Consensus(engine, data) if engine == id => Some(data@),
            _ => None,
        }
    }

    /// The bytes of a seal of the engine `id`.
    pub open spec fn seal_data(self, id: ConsensusEngineId) -> Option<Seq<u8>> {
        match self {
            DigestItem::Seal(engine, data) if engine == id => Some(data@),
            _ => None,
        }
    }

    /// The bytes of the item, if it is a pre-runtime item of the engine `id`.
    pub fn as_pre_runtime(&self, id: &ConsensusEngineId) -> (r: Option<&[u8]>)
        ensures
            match r {
                Some(data) => self.pre_runtime_data(*id) == Some(data@),
                None => self.pre_runtime_data(*id) is None,
            },
    {
        match self {
            DigestItem::PreRuntime(engine, data) => if arrays_eq(engine, id) {
                Some(data.as_slice())
            } else {
                None
            },
            _ => None,
        }
    }

    /// The bytes of the item, if it is a consensus item of the engine `id`.
    pub fn as_consensus(&self, id: &ConsensusEngineId) -> (r: Option<&[u8]>)
        ensures
            match r {
                Some(data) => self.consensus_data(*id) == Some(data@),
                None => self.consensus_data(*id) is None,
            },
    {
        match self {
            DigestItem::Consensus(engine, data) => if arrays_eq(engine, id) {
                Some(data.as_slice())
            } else {
                None
            },
            _ => None,
        }
    }

    /// The bytes of the item, if it is a seal of the engine `id`.
    pub fn as_seal(&self, id: &ConsensusEngineId) -> (r: Option<&[u8]>)
        ensures
            match r {
                Some(data) => self.seal_data(*id) == Some(data@),
                None => self.seal_data(*id) is None,
            },
    {
        match self {
            DigestItem::Seal(engine, data) => if arrays_eq(engine, id) {
                Some(data.as_slice())
            } else {
                None
            },
            _ => None,
        }
    }
}

/// Whether two arrays are the same.
fn arrays_eq<const N: usize>(a: &[u8; N], b: &[u8; N]) -> (r: bool)
    ensures
        r == (*a == *b),
{
    let same: bool = bytes_eq(a.as_slice(), b.as_slice());
    proof {
        if same {
            assert forall|i: int| 0 <= i < N implies a[i] == b[i] by {
                assert(a@[i] == b@[i]);
            }
            assert(*a =~= *b);
        }
    }
    same
}

/// Whether two block hashes are the same.
pub fn hash_eq(a: &BlockHash, b: &BlockHash) -> (r: bool)
    ensures
        r == (*a == *b),
{
    arrays_eq(a, b)
}

/// The bytes of a pre-runtime item of an engine are those of the item, and no item of another kind
/// or of another engine has any.
pub proof fn law_pre_runtime_data(item: DigestItem, id: ConsensusEngineId, bytes: Seq<u8>)
    ensures
        item.pre_runtime_data(id) == Some(bytes)
            <==> (item matches DigestItem::PreRuntime(engine, data) && engine == id && data@
            == bytes),
{
}

/// The bytes of a consensus item of an engine are those of the item, and no item of another kind
/// or of another engine has any.
pub proof fn law_consensus_data(item: DigestItem, id: ConsensusEngineId, bytes: Seq<u8>)
    ensures
        item.consensus_data(id) == Some(bytes)
            <==> (item matches DigestItem::Consensus(engine, data) && engine == id && data@
            == bytes),
{
}

/// The bytes of a seal of an engine are those of the item, and no item of another kind or of
/// another engine has any.
pub proof fn law_seal_data(item: DigestItem, id: ConsensusEngineId, bytes: Seq<u8>)
    ensures
        item.seal_data(id) == Some(bytes) <==> (item matches DigestItem::Seal(engine, data)
            && engine == id && data@ == bytes),
{
}

} // verus!
