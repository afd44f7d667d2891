use poc_consensus::digest::DigestItem;
use poc_consensus::digests::CompatibleDigestItem;
use poc_consensus::keys::{is_sealed_by, FarmerKey};

/// A secret key: the scalar `n`, then the seed of nonces.
fn secret(n: u8) -> Vec<u8> {
    let mut bytes = vec![0u8; 64];
    bytes[0] = n;
    bytes[32] = 9;
    bytes
}

/// The order of the scalars' group, in little-endian bytes.
const GROUP_ORDER: [u8; 32] = [
    0xed, 0xd3, 0xf5, 0x5c, 0x1a, 0x63, 0x12, 0x58, 0xd6, 0x9c, 0xf7, 0xa2, 0xde, 0xf9, 0xde, 0x14,
    0, 0, 0, 0, 0, 0, 0, 0, 0, 0, 0, 0, 0, 0, 0, 0x10,
];

#[test]
fn secret_keys_are_64_bytes_with_a_canonical_scalar() {
    assert!(FarmerKey::from_bytes(&secret(1)).is_some());
    assert!(FarmerKey::from_bytes(&secret(1)[..63]).is_none());
    assert!(FarmerKey::from_bytes(&[]).is_none());
    let mut longer = secret(1);
    longer.push(0);
    assert!(FarmerKey::from_bytes(&longer).is_none());
    let mut bytes = secret(1);
    bytes[..32].copy_from_slice(&GROUP_ORDER);
    assert!(FarmerKey::from_bytes(&bytes).is_none());
    bytes[0] -= 1;
    assert!(FarmerKey::from_bytes(&bytes).is_some());
}

#[test]
fn public_key_of_one_is_the_base_point() {
    let key = FarmerKey::from_bytes(&secret(1)).unwrap();
    let base_point: [u8; 32] = [
        0xe2, 0xf2, 0xae, 0x0a, 0x6a, 0xbc, 0x4e, 0x71, 0xa8, 0x84, 0xa9, 0x61, 0xc5, 0x00, 0x51,
        0x5f, 0x58, 0xe3, 0x0b, 0x6a, 0xa5, 0x82, 0xdd, 0x8d, 0xb6, 0xa6, 0x59, 0x45, 0xe0, 0x8d,
        0x2d, 0x76,
    ];
    assert_eq!(key.public(), base_point);
}

#[test]
fn seal_is_good_for_its_maker_and_block_alone() {
    let key = FarmerKey::from_bytes(&secret(5)).unwrap();
    let other = FarmerKey::from_bytes(&secret(6)).unwrap();
    let seal = key.seal(&[7u8; 32]);
    assert!(is_sealed_by(&seal, &[7u8; 32], &key.public()));
    assert!(!is_sealed_by(&seal, &[8u8; 32], &key.public()));
    assert!(!is_sealed_by(&seal, &[7u8; 32], &other.public()));
}

#[test]
fn signature_is_what_the_seal_holds() {
    let key = FarmerKey::from_bytes(&secret(5)).unwrap();
    let signature = key.sign(&[7u8; 32]);
    let seal = DigestItem::poc_seal(signature);
    assert!(is_sealed_by(&seal, &[7u8; 32], &key.public()));
    assert_eq!(seal.as_poc_seal(), Some(signature));
}

#[test]
fn what_is_no_seal_seals_nothing() {
    let key = FarmerKey::from_bytes(&secret(5)).unwrap();
    assert!(!is_sealed_by(&DigestItem::Other(vec![0u8; 64]), &[7u8; 32], &key.public()));
    assert!(!is_sealed_by(&DigestItem::poc_seal([0u8; 64]), &[7u8; 32], &key.public()));
}
