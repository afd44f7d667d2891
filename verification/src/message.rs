//! The texts in which errors are told.

use crate::error::{Error, Reason};
use crate::primitives::{BlockHash, FarmerId};
use sp_core::crypto::Ss58Codec;
use vstd::prelude::*;
use vstd::string::{StrSliceExecFns, StringExecFns};
use vstd::utf8::{decode_utf8, valid_utf8};

verus! {

/// The character of a digit, in any base up to sixteen.
pub open spec fn digit(d: int) -> char {
    "0123456789abcdef"@[d]
}

/// A number in decimal notation.
pub open spec fn decimal(n: nat) -> Seq<char>
    decreases n,
{
    if n < 10 {
        seq![digit(n as int)]
    } else {
        decimal(n / 10).push(digit((n % 10) as int))
    }
}

/// Bytes in hexadecimal notation, two digits for each.
pub open spec fn hex(bytes: Seq<u8>) -> Seq<char>
    decreases bytes.len(),
{
    if bytes.len() == 0 {
        Seq::empty()
    } else {
        hex(bytes.drop_last()).push(digit(bytes.last() as int / 16)).push(
            digit(bytes.last() as int % 16),
        )
    }
}

/// A hash with all its digits.
pub open spec fn full_hash(hash: BlockHash) -> Seq<char> {
    "0x"@ + hex(hash@)
}

/// A hash with its first and its last two bytes.
pub open spec fn short_hash(hash: BlockHash) -> Seq<char> {
    "0x"@ + hex(hash@.subrange(0, 2)) + "…"@ + hex(hash@.subrange(30, 32))
}

/// The SS58 address of a public key in the format of a given number.
pub uninterp spec fn ss58_address(public: Seq<u8>, format: u16) -> Seq<char>;

/// Bytes read as UTF-8, with a replacement character for what is not.
pub uninterp spec fn utf8_lossy(bytes: Seq<u8>) -> Seq<char>;

/// Calls `to_ss58check_with_version` of `sp_core::crypto::Ss58Codec` on an sr25519 public key. The
/// text follows from the key and the number of the format alone.
#[verifier::external_body]
fn ss58check(public: &FarmerId, format: u16) -> (r: String)
    ensures
        r@ == ss58_address(public@, format),
{
    sp_core::sr25519::Public::from_raw(*public).to_ss58check_with_version(format.into())
}

/// Calls `sp_core::crypto::default_ss58_version`: the number of the format that this process
/// writes addresses in. A process can set it, so nothing is said of it.
#[verifier::external_body]
fn default_format() -> (r: u16) {
    sp_core::crypto::default_ss58_version().into()
}

/// Calls `String::from_utf8_lossy`. Bytes that are valid UTF-8 give the text they encode.
#[verifier::external_body]
fn from_utf8_lossy(bytes: &[u8]) -> (r: String)
    ensures
        r@ == utf8_lossy(bytes@),
        valid_utf8(bytes@) ==> r@ == decode_utf8(bytes@),
{
    String::from_utf8_lossy(bytes).into_owned()
}

/// Adds a digit to a text.
fn push_digit(out: &mut String, d: u8)
    requires
        d < 16,
    ensures
        final(out)@ == old(out)@.push(digit(d as int)),
{
    let digits: &str = "0123456789abcdef";
    proof {
        reveal_strlit("0123456789abcdef");
        assert(vstd::string::is_ascii(digits));
    }
    let i: usize = d as usize;
    out.append(digits.substring_ascii(i, i + 1));
    assert(out@ =~= old(out)@.push(digit(d as int)));
}

/// Adds a number to a text, in decimal notation.
fn push_decimal(out: &mut String, n: u64)
    ensures
        final(out)@ == old(out)@ + decimal(n as nat),
    decreases n,
{
    if n >= 10 {
        push_decimal(out, n / 10);
    }
    push_digit(out, (n % 10) as u8);
    assert(out@ =~= old(out)@ + decimal(n as nat));
}

/// Adds bytes to a text, in hexadecimal notation.
fn push_hex(out: &mut String, bytes: &[u8])
    ensures
        final(out)@ == old(out)@ + hex(bytes@),
{
    let mut i: usize = 0;
    assert(bytes@.take(0) =~= Seq::empty());
    assert(out@ =~= old(out)@ + hex(bytes@.take(0)));
    while i < bytes.len()
        invariant
            i <= bytes.len(),
            out@ == old(out)@ + hex(bytes@.take(i as int)),
        decreases bytes.len() - i,
    {
        push_digit(out, bytes[i] / 16);
        push_digit(out, bytes[i] % 16);
        proof {
            let upto = bytes@.take(i + 1);
            assert(upto.drop_last() =~= bytes@.take(i as int));
            assert(out@ =~= old(out)@ + hex(upto));
        }
        i += 1;
    }
    assert(bytes@.take(i as int) =~= bytes@);
}

/// Adds a hash to a text, with all its digits.
fn push_full_hash(out: &mut String, hash: &BlockHash)
    ensures
        final(out)@ == old(out)@ + full_hash(*hash),
{
    out.append("0x");
    push_hex(out, hash.as_slice());
    assert(out@ =~= old(out)@ + full_hash(*hash));
}

/// Adds a hash to a text, with its first and its last two bytes.
fn push_short_hash(out: &mut String, hash: &BlockHash)
    ensures
        final(out)@ == old(out)@ + short_hash(*hash),
{
    let first: [u8; 2] = [hash[0], hash[1]];
    let last: [u8; 2] = [hash[30], hash[31]];
    proof {
        assert(first@ =~= hash@.subrange(0, 2));
        assert(last@ =~= hash@.subrange(30, 32));
    }
    out.append("0x");
    push_hex(out, first.as_slice());
    out.append("…");
    push_hex(out, last.as_slice());
    assert(out@ =~= old(out)@ + short_hash(*hash));
}

impl Error {
    /// The text of the error, with addresses in the format of a given number.
    pub open spec fn text(self, format: u16) -> Seq<char> {
        match self {
            Error::MultiplePreRuntimeDigests => "Multiple PoC pre-runtime digests, rejecting!"@,
            Error::NoPreRuntimeDigest => "No PoC pre-runtime digest found"@,
            Error::MultipleEpochChangeDigests => "Multiple PoC epoch change digests, rejecting!"@,
            Error::MultipleConfigChangeDigests => "Multiple PoC config change digests, rejecting!"@,
            Error::MultipleSolutionRangeDigests =>
                "Multiple PoC solution range digests, rejecting!"@,
            Error::MultipleNextSolutionRangeDigests =>
                "Multiple PoC next solution range digests, rejecting!"@,
            Error::MultipleSaltDigests => "Multiple PoC salt digests, rejecting!"@,
            Error::MultipleNextSaltDigests => "Multiple PoC next salt digests, rejecting!"@,
            Error::Extraction(e) => "Could not extract timestamp and slot: "@ + e@,
            Error::FetchEpoch(hash) => "Could not fetch epoch at "@ + full_hash(hash),
            Error::TooFarInFuture(hash) => "Header "@ + full_hash(hash)
                + " rejected: too far in the future"@,
            Error::ParentUnavailable(parent, hash) => "Parent ("@ + short_hash(parent) + ") of "@
                + short_hash(hash) + " unavailable. Cannot import"@,
            Error::SlotMustIncrease(parent, slot) =>
                "Slot number must increase: parent slot: "@ + decimal(parent as nat)
                + ", this slot: "@ + decimal(slot as nat),
            Error::HeaderBadSeal(hash) => "Header "@ + full_hash(hash) + " has a bad seal"@,
            Error::HeaderUnsealed(hash) => "Header "@ + full_hash(hash) + " is unsealed"@,
            Error::BadSignature(hash) => "Bad signature on "@ + full_hash(hash),
            Error::BadSolutionSignature(_) => "Bad solution signature"@,
            Error::OutsideOfSolutionRange(slot) =>
                "Solution is outside of solution range for slot "@ + decimal(slot as nat),
            Error::EncodingOfWrongSize => "Encoding is of the wrong size"@,
            Error::InvalidEncoding(slot) => "Invalid encoding for slot "@ + decimal(slot as nat),
            Error::InvalidCommitment(slot) => "Invalid commitment for salt for slot "@ + decimal(
                slot as nat,
            ),
            Error::FetchParentHeader(e) => "Could not fetch parent header: "@ + e@,
            Error::ExpectedEpochChange(hash, slot) => "Expected epoch change to happen at "@
                + full_hash(hash) + ", s"@ + decimal(slot as nat),
            Error::UnexpectedConfigChange => "Unexpected config change"@,
            Error::UnexpectedEpochChange => "Unexpected epoch change"@,
            Error::ParentBlockNoAssociatedWeight(hash) => "Parent block of "@ + short_hash(hash)
                + " has no associated weight"@,
            Error::MissingSolutionRange(hash) => "Missing solution range for block "@ + short_hash(
                hash,
            ),
            Error::MissingSalt(hash) => "Missing salt for block "@ + short_hash(hash),
            Error::FarmerInBlockList(farmer) => "Farmer "@ + ss58_address(farmer@, format)
                + " is in block list"@,
            Error::CheckInherents(e) => "Checking inherents failed: "@ + e@,
            Error::CheckInherentsUnhandled(id) => "Checking inherents unhandled error: "@
                + utf8_lossy(id@),
            Error::CreateInherents(e) => "Creating inherents failed: "@ + e@,
            Error::Client(e) => e@,
            Error::RuntimeApi(e) => e@,
            Error::ForkTree(e) => e@,
        }
    }

    /// The text of the error, with addresses in the format of a given number.
    pub fn message_in(&self, format: u16) -> (r: String)
        ensures
            r@ == self.text(format),
    {
        let mut out: String = String::new();
        match self {
            Error::MultiplePreRuntimeDigests => {
                out.append("Multiple PoC pre-runtime digests, rejecting!");
            },
            Error::NoPreRuntimeDigest => {
                out.append("No PoC pre-runtime digest found");
            },
            Error::MultipleEpochChangeDigests => {
                out.append("Multiple PoC epoch change digests, rejecting!");
            },
            Error::MultipleConfigChangeDigests => {
                out.append("Multiple PoC config change digests, rejecting!");
            },
            Error::MultipleSolutionRangeDigests => {
                out.append("Multiple PoC solution range digests, rejecting!");
            },
            Error::MultipleNextSolutionRangeDigests => {
                out.append("Multiple PoC next solution range digests, rejecting!");
            },
            Error::MultipleSaltDigests => {
                out.append("Multiple PoC salt digests, rejecting!");
            },
            Error::MultipleNextSaltDigests => {
                out.append("Multiple PoC next salt digests, rejecting!");
            },
            Error::Extraction(e) => {
                out.append("Could not extract timestamp and slot: ");
                out.append(e.as_str());
            },
            Error::FetchEpoch(hash) => {
                out.append("Could not fetch epoch at ");
                push_full_hash(&mut out, hash);
            },
            Error::TooFarInFuture(hash) => {
                out.append("Header ");
                push_full_hash(&mut out, hash);
                out.append(" rejected: too far in the future");
            },
            Error::ParentUnavailable(parent, hash) => {
                out.append("Parent (");
                push_short_hash(&mut out, parent);
                out.append(") of ");
                push_short_hash(&mut out, hash);
                out.append(" unavailable. Cannot import");
            },
            Error::SlotMustIncrease(parent, slot) => {
                out.append("Slot number must increase: parent slot: ");
                push_decimal(&mut out, *parent);
                out.append(", this slot: ");
                push_decimal(&mut out, *slot);
            },
            Error::HeaderBadSeal(hash) => {
                out.append("Header ");
                push_full_hash(&mut out, hash);
                out.append(" has a bad seal");
            },
            Error::HeaderUnsealed(hash) => {
                out.append("Header ");
                push_full_hash(&mut out, hash);
                out.append(" is unsealed");
            },
            Error::BadSignature(hash) => {
                out.append("Bad signature on ");
                push_full_hash(&mut out, hash);
            },
            Error::BadSolutionSignature(_) => {
                out.append("Bad solution signature");
            },
            Error::OutsideOfSolutionRange(slot) => {
                out.append("Solution is outside of solution range for slot ");
                push_decimal(&mut out, *slot);
            },
            Error::EncodingOfWrongSize => {
                out.append("Encoding is of the wrong size");
            },
            Error::InvalidEncoding(slot) => {
                out.append("Invalid encoding for slot ");
                push_decimal(&mut out, *slot);
            },
            Error::InvalidCommitment(slot) => {
                out.append("Invalid commitment for salt for slot ");
                push_decimal(&mut out, *slot);
            },
            Error::FetchParentHeader(e) => {
                out.append("Could not fetch parent header: ");
                out.append(e.as_str());
            },
            Error::ExpectedEpochChange(hash, slot) => {
                out.append("Expected epoch change to happen at ");
                push_full_hash(&mut out, hash);
                out.append(", s");
                push_decimal(&mut out, *slot);
            },
            Error::UnexpectedConfigChange => {
                out.append("Unexpected config change");
            },
            Error::UnexpectedEpochChange => {
                out.append("Unexpected epoch change");
            },
            Error::ParentBlockNoAssociatedWeight(hash) => {
                out.append("Parent block of ");
                push_short_hash(&mut out, hash);
                out.append(" has no associated weight");
            },
            Error::MissingSolutionRange(hash) => {
                out.append("Missing solution range for block ");
                push_short_hash(&mut out, hash);
            },
            Error::MissingSalt(hash) => {
                out.append("Missing salt for block ");
                push_short_hash(&mut out, hash);
            },
            Error::FarmerInBlockList(farmer) => {
                out.append("Farmer ");
                out.append(ss58check(farmer, format).as_str());
                out.append(" is in block list");
            },
            Error::CheckInherents(e) => {
                out.append("Checking inherents failed: ");
                out.append(e.as_str());
            },
            Error::CheckInherentsUnhandled(id) => {
                out.append("Checking inherents unhandled error: ");
                out.append(from_utf8_lossy(id.as_slice()).as_str());
            },
            Error::CreateInherents(e) => {
                out.append("Creating inherents failed: ");
                out.append(e.as_str());
            },
            Error::Client(e) => {
                out.append(e.as_str());
            },
            Error::RuntimeApi(e) => {
                out.append(e.as_str());
            },
            Error::ForkTree(e) => {
                out.append(e.as_str());
            },
        }
        assert(out@ =~= self.text(format));
        out
    }

    /// The text of the error. Addresses are in the format that this process has set.
    pub fn message(&self) -> (r: String)
        ensures
            exists|format: u16| r@ == #[trigger] self.text(format),
    {
        let format: u16 = default_format();
        self.message_in(format)
    }
}

impl Reason {
    /// The text of the reason, with addresses in the format of a given number.
    pub open spec fn text(self, format: u16) -> Seq<char> {
        match self {
            Reason::Engine(e) => e.text(format),
            Reason::Node(e) => e@,
            Reason::NoBestWeight => "No block weight for parent header."@,
        }
    }

    /// The text of the reason. Addresses are in the format that this process has set.
    pub fn message(&self) -> (r: String)
        ensures
            exists|format: u16| r@ == #[trigger] self.text(format),
    {
        let format: u16 = default_format();
        let r: String = match self {
            Reason::Engine(e) => e.message_in(format),
            Reason::Node(e) => e.clone(),
            Reason::NoBestWeight => "No block weight for parent header.".to_owned(),
        };
        assert(r@ == self.text(format));
        r
    }
}

} // verus!
