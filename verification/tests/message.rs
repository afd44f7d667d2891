use poc_consensus::error::{Error, Reason};

/// A hash whose bytes count up from 0x10.
fn hash() -> [u8; 32] {
    let mut bytes = [0u8; 32];
    for i in 0..32 {
        bytes[i] = 0x10 + i as u8;
    }
    bytes
}

const FULL: &str = "0x101112131415161718191a1b1c1d1e1f202122232425262728292a2b2c2d2e2f";
const SHORT: &str = "0x1011…2e2f";

#[test]
fn plain_texts() {
    let cases = [
        (Error::MultiplePreRuntimeDigests, "Multiple PoC pre-runtime digests, rejecting!"),
        (Error::NoPreRuntimeDigest, "No PoC pre-runtime digest found"),
        (Error::MultipleEpochChangeDigests, "Multiple PoC epoch change digests, rejecting!"),
        (Error::MultipleConfigChangeDigests, "Multiple PoC config change digests, rejecting!"),
        (Error::MultipleSolutionRangeDigests, "Multiple PoC solution range digests, rejecting!"),
        (
            Error::MultipleNextSolutionRangeDigests,
            "Multiple PoC next solution range digests, rejecting!",
        ),
        (Error::MultipleSaltDigests, "Multiple PoC salt digests, rejecting!"),
        (Error::MultipleNextSaltDigests, "Multiple PoC next salt digests, rejecting!"),
        (Error::BadSolutionSignature(4), "Bad solution signature"),
        (Error::EncodingOfWrongSize, "Encoding is of the wrong size"),
        (Error::UnexpectedConfigChange, "Unexpected config change"),
        (Error::UnexpectedEpochChange, "Unexpected epoch change"),
    ];
    for (error, text) in cases.iter() {
        assert_eq!(error.message(), text.to_string());
    }
}

#[test]
fn texts_with_numbers() {
    assert_eq!(
        Error::SlotMustIncrease(0, 10).message(),
        "Slot number must increase: parent slot: 0, this slot: 10",
    );
    assert_eq!(
        Error::OutsideOfSolutionRange(u64::MAX).message(),
        "Solution is outside of solution range for slot 18446744073709551615",
    );
    assert_eq!(Error::InvalidEncoding(9).message(), "Invalid encoding for slot 9");
    assert_eq!(Error::InvalidCommitment(105).message(), "Invalid commitment for salt for slot 105");
}

#[test]
fn texts_with_full_hashes() {
    assert_eq!(Error::FetchEpoch(hash()).message(), format!("Could not fetch epoch at {}", FULL));
    assert_eq!(
        Error::TooFarInFuture(hash()).message(),
        format!("Header {} rejected: too far in the future", FULL),
    );
    assert_eq!(
        Error::HeaderBadSeal(hash()).message(),
        format!("Header {} has a bad seal", FULL),
    );
    assert_eq!(Error::HeaderUnsealed(hash()).message(), format!("Header {} is unsealed", FULL));
    assert_eq!(Error::BadSignature(hash()).message(), format!("Bad signature on {}", FULL));
    assert_eq!(
        Error::ExpectedEpochChange(hash(), 12).message(),
        format!("Expected epoch change to happen at {}, s12", FULL),
    );
}

#[test]
fn texts_with_short_hashes() {
    assert_eq!(
        Error::ParentUnavailable([0u8; 32], hash()).message(),
        format!("Parent (0x0000…0000) of {} unavailable. Cannot import", SHORT),
    );
    assert_eq!(
        Error::ParentBlockNoAssociatedWeight(hash()).message(),
        format!("Parent block of {} has no associated weight", SHORT),
    );
    assert_eq!(
        Error::MissingSolutionRange(hash()).message(),
        format!("Missing solution range for block {}", SHORT),
    );
    assert_eq!(
        Error::MissingSalt(hash()).message(),
        format!("Missing salt for block {}", SHORT),
    );
}

#[test]
fn hashes_look_like_those_of_the_node() {
    let node_hash = sp_core::H256(hash());
    assert_eq!(format!("{:?}", node_hash), FULL);
    assert_eq!(format!("{}", node_hash), SHORT);
}

#[test]
fn texts_of_the_node_are_kept() {
    let text = || "it broke".to_string();
    assert_eq!(
        Error::Extraction(text()).message(),
        "Could not extract timestamp and slot: it broke",
    );
    assert_eq!(
        Error::FetchParentHeader(text()).message(),
        "Could not fetch parent header: it broke",
    );
    assert_eq!(Error::CheckInherents(text()).message(), "Checking inherents failed: it broke");
    assert_eq!(Error::CreateInherents(text()).message(), "Creating inherents failed: it broke");
    assert_eq!(Error::Client(text()).message(), "it broke");
    assert_eq!(Error::RuntimeApi(text()).message(), "it broke");
    assert_eq!(Error::ForkTree(text()).message(), "it broke");
}

#[test]
fn unhandled_inherents_are_named() {
    assert_eq!(
        Error::CheckInherentsUnhandled(*b"poc0slot").message(),
        "Checking inherents unhandled error: poc0slot",
    );
    assert_eq!(
        Error::CheckInherentsUnhandled([0x61, 0xff, 0x62, 0x63, 0x64, 0x65, 0x66, 0x67]).message(),
        "Checking inherents unhandled error: a\u{fffd}bcdefg",
    );
}

#[test]
fn farmers_are_named_by_address() {
    let farmer: [u8; 32] = [
        0xd4, 0x35, 0x93, 0xc7, 0x15, 0xfd, 0xd3, 0x1c, 0x61, 0x14, 0x1a, 0xbd, 0x04, 0xa9, 0x9f,
        0xd6, 0x82, 0x2c, 0x85, 0x58, 0x85, 0x4c, 0xcd, 0xe3, 0x9a, 0x56, 0x84, 0xe7, 0xa5, 0x6d,
        0xa2, 0x7d,
    ];
    let text = "Farmer 5GrwvaEF5zXb26Fz9rcQpDWS57CtERHpNehXCPcNoHGKutQY is in block list";
    assert_eq!(Error::FarmerInBlockList(farmer).message_in(42), text);
    assert_eq!(Error::FarmerInBlockList(farmer).message(), text);
    assert_eq!(
        Error::FarmerInBlockList(farmer).message_in(0),
        "Farmer 15oF4uVJwmo4TdGW7VfQxNLavjCXviqxT9S1MgbjMNHr6Sp5 is in block list",
    );
}

#[test]
fn reasons_are_told() {
    assert_eq!(
        Reason::Engine(Error::UnexpectedEpochChange).message(),
        "Unexpected epoch change",
    );
    assert_eq!(Reason::Node("it broke".to_string()).message(), "it broke");
    assert_eq!(Reason::NoBestWeight.message(), "No block weight for parent header.");
}
