//! What holds of the texts in which errors are told.

use crate::error::{Error, Reason};
use crate::message::{decimal, digit, full_hash, hex, short_hash, ss58_address, utf8_lossy};
use crate::primitives::{BlockHash, FarmerId, Slot};
use vstd::prelude::*;

verus! {

/// What a character counts for as a digit: zero to nine, then the letters from `a` on.
pub open spec fn digit_value(c: char) -> int {
    if '0' <= c <= '9' {
        c as int - '0' as int
    } else {
        c as int - 'a' as int + 10
    }
}

/// The number that a text stands for in decimal notation.
pub open spec fn decimal_value(s: Seq<char>) -> int
    decreases s.len(),
{
    if s.len() == 0 {
        0
    } else {
        10 * decimal_value(s.drop_last()) + digit_value(s.last())
    }
}

/// A digit counts for what it is the digit of.
pub proof fn law_digit(d: int)
    requires
        0 <= d < 16,
    ensures
        digit_value(digit(d)) == d,
        '0' <= digit(d) <= '9' <==> d < 10,
        d >= 10 ==> 'a' <= digit(d) <= 'f',
{
    reveal_strlit("0123456789abcdef");
}

/// A number in decimal notation stands for the number, is made of decimal digits alone, and does
/// not start with a zero unless it is zero.
pub proof fn law_decimal(n: nat)
    ensures
        decimal_value(decimal(n)) == n,
        decimal(n).len() >= 1,
        n > 0 ==> decimal(n)[0] != '0',
        forall|i: int| 0 <= i < decimal(n).len() ==> '0' <= #[trigger] decimal(n)[i] <= '9',
    decreases n,
{
    law_digit((n % 10) as int);
    if n < 10 {
        law_digit(n as int);
        assert(decimal(n).drop_last() =~= Seq::empty());
        assert(decimal_value(decimal(n).drop_last()) == 0);
    } else {
        law_decimal(n / 10);
        assert(decimal(n).drop_last() =~= decimal(n / 10));
        assert(decimal(n)[0] == decimal(n / 10)[0]);
        assert forall|i: int| 0 <= i < decimal(n).len() implies '0' <= #[trigger] decimal(n)[i]
            <= '9' by {
            if i < decimal(n / 10).len() {
                assert(decimal(n)[i] == decimal(n / 10)[i]);
            }
        }
    }
}

/// Bytes in hexadecimal notation take two digits each, the higher half first.
pub proof fn law_hex(bytes: Seq<u8>)
    ensures
        hex(bytes).len() == 2 * bytes.len(),
        forall|i: int|
            0 <= i < bytes.len() ==> digit_value(hex(bytes)[2 * i]) == (#[trigger] bytes[i]) / 16
                && digit_value(hex(bytes)[2 * i + 1]) == bytes[i] % 16,
        forall|j: int|
            0 <= j < hex(bytes).len() ==> '0' <= (#[trigger] hex(bytes)[j]) <= '9' || 'a' <= hex(
                bytes,
            )[j] <= 'f',
    decreases bytes.len(),
{
    if bytes.len() > 0 {
        let before = bytes.drop_last();
        let n = before.len() as int;
        law_hex(before);
        law_digit(bytes.last() as int / 16);
        law_digit(bytes.last() as int % 16);
        assert forall|i: int| 0 <= i < bytes.len() implies digit_value(hex(bytes)[2 * i])
            == (#[trigger] bytes[i]) / 16 && digit_value(hex(bytes)[2 * i + 1]) == bytes[i]
            % 16 by {
            if i < n {
                assert(before[i] == bytes[i]);
                assert(hex(bytes)[2 * i] == hex(before)[2 * i]);
                assert(hex(bytes)[2 * i + 1] == hex(before)[2 * i + 1]);
            }
        }
        assert forall|j: int| 0 <= j < hex(bytes).len() implies '0' <= (#[trigger] hex(bytes)[j])
            <= '9' || 'a' <= hex(bytes)[j] <= 'f' by {
            if j < 2 * n {
                assert(hex(bytes)[j] == hex(before)[j]);
            }
        }
    }
}

/// A hash is shown in full as all its bytes, and in short as the first two and the last two, around
/// an ellipsis; both start with `0x`.
pub proof fn law_hashes(hash: BlockHash)
    ensures
        full_hash(hash).len() == 66,
        full_hash(hash).take(2) == "0x"@,
        full_hash(hash).skip(2) == hex(hash@),
        short_hash(hash).len() == 11,
        short_hash(hash).take(2) == "0x"@,
        short_hash(hash).subrange(2, 6) == hex(hash@).take(4),
        short_hash(hash)[6] == '\u{2026}',
        short_hash(hash).skip(7) == hex(hash@).skip(60),
{
    reveal_strlit("0x");
    reveal_strlit("…");
    law_hex(hash@);
    let first = hash@.subrange(0, 2);
    let last = hash@.subrange(30, 32);
    law_hex(first);
    law_hex(last);
    lemma_hex_of_parts(first, hash@.skip(2));
    lemma_hex_of_parts(hash@.take(30), last);
    assert(hash@ =~= first + hash@.skip(2));
    assert(hash@ =~= hash@.take(30) + last);
    law_hex(hash@.take(30));
    assert(full_hash(hash).take(2) =~= "0x"@);
    assert(full_hash(hash).skip(2) =~= hex(hash@));
    assert(short_hash(hash).take(2) =~= "0x"@);
    assert(short_hash(hash).subrange(2, 6) =~= hex(hash@).take(4));
    assert(short_hash(hash).skip(7) =~= hex(hash@).skip(60));
}

/// The notation of bytes is that of the first of them, then that of the others.
proof fn lemma_hex_of_parts(first: Seq<u8>, second: Seq<u8>)
    ensures
        hex(first + second) == hex(first) + hex(second),
    decreases second.len(),
{
    if second.len() == 0 {
        assert(first + second =~= first);
        assert(hex(first) + hex(second) =~= hex(first));
    } else {
        lemma_hex_of_parts(first, second.drop_last());
        assert((first + second).drop_last() =~= first + second.drop_last());
        assert(hex(first + second) =~= hex(first) + hex(second));
    }
}

/// Where an error is about nothing in particular, its text is always the same.
pub proof fn law_plain_texts(format: u16)
    ensures
        Error::MultiplePreRuntimeDigests.text(format) ==
            "Multiple PoC pre-runtime digests, rejecting!"@,
        Error::NoPreRuntimeDigest.text(format) == "No PoC pre-runtime digest found"@,
        Error::MultipleEpochChangeDigests.text(format) ==
            "Multiple PoC epoch change digests, rejecting!"@,
        Error::MultipleConfigChangeDigests.text(format) ==
            "Multiple PoC config change digests, rejecting!"@,
        Error::MultipleSolutionRangeDigests.text(format) ==
            "Multiple PoC solution range digests, rejecting!"@,
        Error::MultipleNextSolutionRangeDigests.text(format) ==
            "Multiple PoC next solution range digests, rejecting!"@,
        Error::MultipleSaltDigests.text(format) == "Multiple PoC salt digests, rejecting!"@,
        Error::MultipleNextSaltDigests.text(format) ==
            "Multiple PoC next salt digests, rejecting!"@,
        Error::EncodingOfWrongSize.text(format) == "Encoding is of the wrong size"@,
        Error::UnexpectedConfigChange.text(format) == "Unexpected config change"@,
        Error::UnexpectedEpochChange.text(format) == "Unexpected epoch change"@,
        Reason::NoBestWeight.text(format) == "No block weight for parent header."@,
{
}

/// An error names what it is about: the hashes, slots and farmers it is about and the node's own
/// text stand in its text, whatever they are. What comes from the node, the chain and the runtime
/// is told in the node's own words.
pub proof fn law_texts_name_what_is_wrong(
    e: String,
    hash: BlockHash,
    parent_hash: BlockHash,
    parent: Slot,
    slot: Slot,
    farmer: FarmerId,
    id: [u8; 8],
    error: Error,
    format: u16,
)
    ensures
        Error::Extraction(e).text(format) == "Could not extract timestamp and slot: "@ + e@,
        Error::FetchEpoch(hash).text(format) == "Could not fetch epoch at "@ + full_hash(hash),
        Error::TooFarInFuture(hash).text(format) == "Header "@ + full_hash(hash)
            + " rejected: too far in the future"@,
        Error::ParentUnavailable(parent_hash, hash).text(format) == "Parent ("@
            + short_hash(parent_hash) + ") of "@ + short_hash(hash)
            + " unavailable. Cannot import"@,
        Error::SlotMustIncrease(parent, slot).text(format) ==
            "Slot number must increase: parent slot: "@ + decimal(parent as nat) + ", this slot: "@
            + decimal(slot as nat),
        Error::HeaderBadSeal(hash).text(format) == "Header "@ + full_hash(hash)
            + " has a bad seal"@,
        Error::HeaderUnsealed(hash).text(format) == "Header "@ + full_hash(hash) + " is unsealed"@,
        Error::BadSignature(hash).text(format) == "Bad signature on "@ + full_hash(hash),
        Error::BadSolutionSignature(slot).text(format) == "Bad solution signature"@,
        Error::OutsideOfSolutionRange(slot).text(format) ==
            "Solution is outside of solution range for slot "@ + decimal(slot as nat),
        Error::InvalidEncoding(slot).text(format) == "Invalid encoding for slot "@
            + decimal(slot as nat),
        Error::InvalidCommitment(slot).text(format) == "Invalid commitment for salt for slot "@
            + decimal(slot as nat),
        Error::FetchParentHeader(e).text(format) == "Could not fetch parent header: "@ + e@,
        Error::ExpectedEpochChange(hash, slot).text(format) ==
            "Expected epoch change to happen at "@ + full_hash(hash) + ", s"@
            + decimal(slot as nat),
        Error::ParentBlockNoAssociatedWeight(hash).text(format) == "Parent block of "@
            + short_hash(hash) + " has no associated weight"@,
        Error::MissingSolutionRange(hash).text(format) == "Missing solution range for block "@
            + short_hash(hash),
        Error::MissingSalt(hash).text(format) == "Missing salt for block "@ + short_hash(hash),
        Error::FarmerInBlockList(farmer).text(format) == "Farmer "@ + ss58_address(farmer@, format)
            + " is in block list"@,
        Error::CheckInherents(e).text(format) == "Checking inherents failed: "@ + e@,
        Error::CheckInherentsUnhandled(id).text(format) == "Checking inherents unhandled error: "@
            + utf8_lossy(id@),
        Error::CreateInherents(e).text(format) == "Creating inherents failed: "@ + e@,
        Error::Client(e).text(format) == e@,
        Error::RuntimeApi(e).text(format) == e@,
        Error::ForkTree(e).text(format) == e@,
        Reason::Node(e).text(format) == e@,
        Reason::Engine(error).text(format) == error.text(format),
{
}

/// The format of addresses plays no part in a text that holds no address.
pub proof fn law_format_only_matters_to_addresses(error: Error, first: u16, second: u16)
    requires
        !(error is FarmerInBlockList),
    ensures
        error.text(first) == error.text(second),
{
}

} // verus!
