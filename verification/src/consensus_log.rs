//! The messages that the runtime leaves for the consensus engine in a header.

use crate::codec::{append_bytes, array_at, u64_from_le, u64_to_le};
use crate::digest::DigestItem;
use crate::digests::{NextConfigDescriptor, NextEpochDescriptor};
use crate::primitives::POC_ENGINE_ID;
use vstd::prelude::*;

verus! {

/// Information about the solution range of the block that holds it.
#[derive(Clone, Copy, Debug, PartialEq, Eq)]
pub struct SolutionRangeDescriptor {
    /// Solution range used for challenges.
    pub solution_range: u64,
}

/// Information about the solution range that applies from the next block on.
#[derive(Clone, Copy, Debug, PartialEq, Eq)]
pub struct NextSolutionRangeDescriptor {
    /// Solution range used for challenges.
    pub solution_range: u64,
}

/// Information about the salt of the block that holds it.
#[derive(Clone, Copy, Debug, PartialEq, Eq)]
pub struct SaltDescriptor {
    /// Salt used for commitments.
    pub salt: u64,
}

/// Information about the salt that applies from the next block on.
#[derive(Clone, Copy, Debug, PartialEq, Eq)]
pub struct NextSaltDescriptor {
    /// Salt used for commitments.
    pub salt: u64,
}

/// A consensus log item for PoC.
#[derive(Clone, Copy, Debug, PartialEq, Eq)]
pub enum ConsensusLog {
    /// The epoch has changed. This provides information about the _next_ epoch.
    NextEpochData(NextEpochDescriptor),
    /// The epoch has changed, and the epoch after the current one will have another
    /// configuration.
    NextConfigData(NextConfigDescriptor),
    /// Solution range for this block.
    SolutionRangeData(SolutionRangeDescriptor),
    /// The solution range has changed.
    NextSolutionRangeData(NextSolutionRangeDescriptor),
    /// Salt for this block.
    SaltData(SaltDescriptor),
    /// The salt has changed.
    NextSaltData(NextSaltDescriptor),
}

/// The number that the eight bytes of `s` after the first stand for.
pub open spec fn payload_u64(s: Seq<u8>) -> u64 {
    crate::codec::le_value(s.subrange(1, 9)) as u64
}

impl ConsensusLog {
    /// The bytes that a log is written as: one that tells the kind, then the content. A config
    /// descriptor starts with its version.
    pub open spec fn encoding(self) -> Seq<u8> {
        match self {
            ConsensusLog::NextEpochData(d) => seq![1u8] + d.randomness@,
            ConsensusLog::NextConfigData(NextConfigDescriptor::V1 { c }) => seq![2u8, 1u8]
                + crate::codec::le_bytes(c.0 as nat, 8) + crate::codec::le_bytes(c.1 as nat, 8),
            ConsensusLog::SolutionRangeData(d) => seq![3u8] + crate::codec::le_bytes(
                d.solution_range as nat,
                8,
            ),
            ConsensusLog::NextSolutionRangeData(d) => seq![4u8] + crate::codec::le_bytes(
                d.solution_range as nat,
                8,
            ),
            ConsensusLog::SaltData(d) => seq![5u8] + crate::codec::le_bytes(d.salt as nat, 8),
            ConsensusLog::NextSaltData(d) => seq![6u8] + crate::codec::le_bytes(d.salt as nat, 8),
        }
    }

    /// The log that some bytes start with.
    pub open spec fn decoding(s: Seq<u8>) -> Option<ConsensusLog> {
        if s.len() == 0 {
            None
        } else if s[0] == 1 {
            if s.len() >= 33 {
                Some(
                    ConsensusLog::NextEpochData(
                        NextEpochDescriptor {
                            randomness: crate::codec::array_of::<32>(s.subrange(1, 33)),
                        },
                    ),
                )
            } else {
                None
            }
        } else if s[0] == 2 {
            if s.len() >= 18 && s[1] == 1 {
                Some(
                    ConsensusLog::NextConfigData(
                        NextConfigDescriptor::V1 {
                            c: (
                                crate::codec::le_value(s.subrange(2, 10)) as u64,
                                crate::codec::le_value(s.subrange(10, 18)) as u64,
                            ),
                        },
                    ),
                )
            } else {
                None
            }
        } else if s.len() < 9 {
            None
        } else if s[0] == 3 {
            Some(
                ConsensusLog::SolutionRangeData(
                    SolutionRangeDescriptor { solution_range: payload_u64(s) },
                ),
            )
        } else if s[0] == 4 {
            Some(
                ConsensusLog::NextSolutionRangeData(
                    NextSolutionRangeDescriptor { solution_range: payload_u64(s) },
                ),
            )
        } else if s[0] == 5 {
            Some(ConsensusLog::SaltData(SaltDescriptor { salt: payload_u64(s) }))
        } else if s[0] == 6 {
            Some(ConsensusLog::NextSaltData(NextSaltDescriptor { salt: payload_u64(s) }))
        } else {
            None
        }
    }

    /// Writes the log as bytes.
    pub fn encode(&self) -> (r: Vec<u8>)
        ensures
            r@ == self.encoding(),
    {
        let mut out: Vec<u8> = Vec::new();
        match self {
            ConsensusLog::NextEpochData(d) => {
                out.push(1);
                append_bytes(&mut out, d.randomness.as_slice());
            },
            ConsensusLog::NextConfigData(NextConfigDescriptor::V1 { c }) => {
                out.push(2);
                out.push(1);
                let first: [u8; 8] = u64_to_le(c.0);
                let second: [u8; 8] = u64_to_le(c.1);
                append_bytes(&mut out, first.as_slice());
                append_bytes(&mut out, second.as_slice());
            },
            ConsensusLog::SolutionRangeData(d) => {
                out.push(3);
                let number: [u8; 8] = u64_to_le(d.solution_range);
                append_bytes(&mut out, number.as_slice());
            },
            ConsensusLog::NextSolutionRangeData(d) => {
                out.push(4);
                let number: [u8; 8] = u64_to_le(d.solution_range);
                append_bytes(&mut out, number.as_slice());
            },
            ConsensusLog::SaltData(d) => {
                out.push(5);
                let number: [u8; 8] = u64_to_le(d.salt);
                append_bytes(&mut out, number.as_slice());
            },
            ConsensusLog::NextSaltData(d) => {
                out.push(6);
                let number: [u8; 8] = u64_to_le(d.salt);
                append_bytes(&mut out, number.as_slice());
            },
        }
        assert(out@ =~= self.encoding());
        out
    }

    /// Reads the log that `s` starts with, if it starts with one.
    pub fn decode(s: &[u8]) -> (r: Option<ConsensusLog>)
        ensures
            r == ConsensusLog::decoding(s@),
    {
        if s.len() == 0 {
            return None;
        }
        let kind: u8 = s[0];
        if kind == 1 {
            if s.len() < 33 {
                return None;
            }
            let randomness: [u8; 32] = array_at::<32>(s, 1);
            proof {
                crate::codec::lemma_array_of::<32>(randomness);
            }
            return Some(ConsensusLog::NextEpochData(NextEpochDescriptor { randomness }));
        }
        if kind == 2 {
            if s.len() < 18 || s[1] != 1 {
                return None;
            }
            let first: [u8; 8] = array_at::<8>(s, 2);
            let second: [u8; 8] = array_at::<8>(s, 10);
            proof {
                crate::codec::lemma_u64_value(first@);
                crate::codec::lemma_u64_value(second@);
            }
            let c: (u64, u64) = (u64_from_le(&first), u64_from_le(&second));
            return Some(ConsensusLog::NextConfigData(NextConfigDescriptor::V1 { c }));
        }
        if s.len() < 9 {
            return None;
        }
        let payload: [u8; 8] = array_at::<8>(s, 1);
        proof {
            crate::codec::lemma_u64_value(payload@);
        }
        let number: u64 = u64_from_le(&payload);
        match kind {
            3 => Some(
                ConsensusLog::SolutionRangeData(SolutionRangeDescriptor { solution_range: number }),
            ),
            4 => Some(
                ConsensusLog::NextSolutionRangeData(
                    NextSolutionRangeDescriptor { solution_range: number },
                ),
            ),
            5 => Some(ConsensusLog::SaltData(SaltDescriptor { salt: number })),
            6 => Some(ConsensusLog::NextSaltData(NextSaltDescriptor { salt: number })),
            _ => None,
        }
    }

    /// The log that a digest item holds, if it is a consensus item of this engine and holds one.
    pub fn from_item(item: &DigestItem) -> (r: Option<ConsensusLog>)
        ensures
            r == log_of(*item),
    {
        match item.as_consensus(&POC_ENGINE_ID) {
            Some(data) => ConsensusLog::decode(data),
            None => None,
        }
    }
}

/// The log that a digest item holds.
pub open spec fn log_of(item: DigestItem) -> Option<ConsensusLog> {
    match item.consensus_data(POC_ENGINE_ID) {
        Some(data) => ConsensusLog::decoding(data),
        None => None,
    }
}

/// A log is read back from its bytes, whatever follows them.
pub proof fn law_log_reads_back(log: ConsensusLog, rest: Seq<u8>)
    ensures
        ConsensusLog::decoding(log.encoding() + rest) == Some(log),
{
    let s = log.encoding() + rest;
    match log {
        ConsensusLog::NextEpochData(d) => {
            assert(s.subrange(1, 33) =~= d.randomness@);
            crate::codec::lemma_array_of::<32>(d.randomness);
        },
        ConsensusLog::NextConfigData(NextConfigDescriptor::V1 { c }) => {
            crate::codec::lemma_u64_bytes(c.0);
            crate::codec::lemma_u64_bytes(c.1);
            assert(s.subrange(2, 10) =~= crate::codec::le_bytes(c.0 as nat, 8));
            assert(s.subrange(10, 18) =~= crate::codec::le_bytes(c.1 as nat, 8));
        },
        ConsensusLog::SolutionRangeData(d) => {
            crate::codec::lemma_u64_bytes(d.solution_range);
            assert(s.subrange(1, 9) =~= crate::codec::le_bytes(d.solution_range as nat, 8));
        },
        ConsensusLog::NextSolutionRangeData(d) => {
            crate::codec::lemma_u64_bytes(d.solution_range);
            assert(s.subrange(1, 9) =~= crate::codec::le_bytes(d.solution_range as nat, 8));
        },
        ConsensusLog::SaltData(d) => {
            crate::codec::lemma_u64_bytes(d.salt);
            assert(s.subrange(1, 9) =~= crate::codec::le_bytes(d.salt as nat, 8));
        },
        ConsensusLog::NextSaltData(d) => {
            crate::codec::lemma_u64_bytes(d.salt);
            assert(s.subrange(1, 9) =~= crate::codec::le_bytes(d.salt as nat, 8));
        },
    }
}

/// How a log is written: a byte that tells the kind, then for an epoch the randomness, for a
/// configuration its version and the two numbers, and for any other the number.
pub proof fn law_log_layout(log: ConsensusLog)
    ensures
        ({
            let s = log.encoding();
            match log {
                ConsensusLog::NextEpochData(d) => s.len() == 33 && s[0] == 1 && s.skip(1)
                    == d.randomness@,
                ConsensusLog::NextConfigData(NextConfigDescriptor::V1 { c }) => s.len() == 18
                    && s[0] == 2 && s[1] == 1 && crate::codec::le_value(s.subrange(2, 10)) == c.0
                    && crate::codec::le_value(s.subrange(10, 18)) == c.1,
                ConsensusLog::SolutionRangeData(d) => s.len() == 9 && s[0] == 3
                    && crate::codec::le_value(s.skip(1)) == d.solution_range,
                ConsensusLog::NextSolutionRangeData(d) => s.len() == 9 && s[0] == 4
                    && crate::codec::le_value(s.skip(1)) == d.solution_range,
                ConsensusLog::SaltData(d) => s.len() == 9 && s[0] == 5 && crate::codec::le_value(
                    s.skip(1),
                ) == d.salt,
                ConsensusLog::NextSaltData(d) => s.len() == 9 && s[0] == 6
                    && crate::codec::le_value(s.skip(1)) == d.salt,
            }
        }),
{
    let s = log.encoding();
    match log {
        ConsensusLog::NextEpochData(d) => {
            assert(s.skip(1) =~= d.randomness@);
        },
        ConsensusLog::NextConfigData(NextConfigDescriptor::V1 { c }) => {
            crate::codec::lemma_u64_bytes(c.0);
            crate::codec::lemma_u64_bytes(c.1);
            assert(s.subrange(2, 10) =~= crate::codec::le_bytes(c.0 as nat, 8));
            assert(s.subrange(10, 18) =~= crate::codec::le_bytes(c.1 as nat, 8));
        },
        ConsensusLog::SolutionRangeData(d) => {
            crate::codec::lemma_u64_bytes(d.solution_range);
            assert(s.skip(1) =~= crate::codec::le_bytes(d.solution_range as nat, 8));
        },
        ConsensusLog::NextSolutionRangeData(d) => {
            crate::codec::lemma_u64_bytes(d.solution_range);
            assert(s.skip(1) =~= crate::codec::le_bytes(d.solution_range as nat, 8));
        },
        ConsensusLog::SaltData(d) => {
            crate::codec::lemma_u64_bytes(d.salt);
            assert(s.skip(1) =~= crate::codec::le_bytes(d.salt as nat, 8));
        },
        ConsensusLog::NextSaltData(d) => {
            crate::codec::lemma_u64_bytes(d.salt);
            assert(s.skip(1) =~= crate::codec::le_bytes(d.salt as nat, 8));
        },
    }
}

/// What is read as a log starts with what the log is written as.
proof fn lemma_decoding_is_a_prefix(s: Seq<u8>)
    ensures
        ConsensusLog::decoding(s) matches Some(log) ==> log.encoding().is_prefix_of(s),
{
    if let Some(log) = ConsensusLog::decoding(s) {
        let e = log.encoding();
        match log {
            ConsensusLog::NextEpochData(d) => {
                let a = crate::codec::array_from::<32>(s.subrange(1, 33));
                assert(s.take(33) =~= e);
            },
            ConsensusLog::NextConfigData(NextConfigDescriptor::V1 { c }) => {
                crate::codec::lemma_u64_value(s.subrange(2, 10));
                crate::codec::lemma_u64_value(s.subrange(10, 18));
                assert(s.take(18) =~= e);
            },
            _ => {
                crate::codec::lemma_u64_value(s.subrange(1, 9));
                assert(s.take(9) =~= e);
            },
        }
    }
}

/// A log is read from an item if and only if the item is a consensus item of this engine that
/// starts with what the log is written as.
pub proof fn law_log_is_read_iff_written(item: DigestItem, log: ConsensusLog)
    ensures
        log_of(item) == Some(log) <==> (item matches DigestItem::Consensus(id, data) && id
            == POC_ENGINE_ID && log.encoding().is_prefix_of(data@)),
{
    if let DigestItem::Consensus(id, data) = item {
        let s = data@;
        lemma_decoding_is_a_prefix(s);
        if log.encoding().is_prefix_of(s) {
            let n = log.encoding().len() as int;
            assert(s =~= log.encoding() + s.skip(n));
            law_log_reads_back(log, s.skip(n));
        }
    }
}

} // verus!
