//! Farmers' keys and the seals that are made with them.

use crate::digest::DigestItem;
use crate::digests::CompatibleDigestItem;
use crate::primitives::{BlockHash, FarmerId, FarmerSignature};
use crate::vrf::canonical_scalar;
use vstd::prelude::*;

verus! {

/// The public key that belongs to a secret key.
pub uninterp spec fn sr25519_public(secret: Seq<u8>) -> Seq<u8>;

/// Whether a signature of a message is good for a public key.
pub uninterp spec fn sr25519_verifies(
    signature: Seq<u8>,
    message: Seq<u8>,
    public: Seq<u8>,
) -> bool;

/// Whether some bytes write a secret key: a canonical scalar, then 32 bytes that seed nonces.
pub open spec fn secret_key_bytes(s: Seq<u8>) -> bool {
    &&& s.len() == 64
    &&& canonical_scalar(s.take(32))
}

/// A farmer's secret key.
#[derive(Clone, Copy)]
pub struct FarmerKey {
    secret: [u8; 64],
}

/// Calls `SecretKey::from_bytes` of `schnorrkel`. It succeeds on 64 bytes of which the first half
/// is a scalar in canonical form, and in no other case.
#[verifier::external_body]
fn secret_key_accepted(bytes: &[u8]) -> (r: bool)
    ensures
        r == secret_key_bytes(bytes@),
{
    schnorrkel::SecretKey::from_bytes(bytes).is_ok()
}

/// Calls `Pair::public` of `sp_core::sr25519` on the pair that a secret key makes. The public key
/// depends on the secret key alone.
#[verifier::external_body]
fn pair_public(secret: &[u8; 64]) -> (r: [u8; 32])
    requires
        secret_key_bytes(secret@),
    ensures
        r@ == sr25519_public(secret@),
{
    let pair = sp_core::sr25519::Pair::from(schnorrkel::SecretKey::from_bytes(secret).unwrap());
    sp_core::Pair::public(&pair).0
}

/// Calls `Pair::sign` of `sp_core::sr25519` on the pair that a secret key makes. The signature
/// differs from call to call, as it takes in fresh randomness; each one is good for the message
/// and the public key of the pair.
#[verifier::external_body]
fn pair_sign(secret: &[u8; 64], message: &[u8]) -> (r: [u8; 64])
    requires
        secret_key_bytes(secret@),
    ensures
        sr25519_verifies(r@, message@, sr25519_public(secret@)),
{
    let pair = sp_core::sr25519::Pair::from(schnorrkel::SecretKey::from_bytes(secret).unwrap());
    sp_core::Pair::sign(&pair, message).0
}

/// Calls `Pair::verify` of `sp_core::sr25519`. The answer depends on its three arguments alone.
#[verifier::external_body]
fn pair_verify(signature: &[u8; 64], message: &[u8], public: &[u8; 32]) -> (r: bool)
    ensures
        r == sr25519_verifies(signature@, message@, public@),
{
    let signature = sp_core::sr25519::Signature::from_raw(*signature);
    let public = sp_core::sr25519::Public::from_raw(*public);
    <sp_core::sr25519::Pair as sp_core::Pair>::verify(&signature, message, &public)
}

impl FarmerKey {
    /// The bytes are a secret key.
    #[verifier::type_invariant]
    spec fn wf(self) -> bool {
        secret_key_bytes(self.secret@)
    }

    /// The bytes of the key.
    pub closed spec fn secret(self) -> Seq<u8> {
        self.secret@
    }

    /// The key that `bytes` writes, if it writes one.
    pub fn from_bytes(bytes: &[u8]) -> (r: Option<FarmerKey>)
        ensures
            r is Some <==> secret_key_bytes(bytes@),
            r matches Some(key) ==> key.secret() == bytes@,
    {
        if secret_key_accepted(bytes) {
            let secret: [u8; 64] = crate::codec::array_at::<64>(bytes, 0);
            assert(bytes@.subrange(0, 64) =~= bytes@);
            Some(FarmerKey { secret })
        } else {
            None
        }
    }

    /// The farmer's public key.
    pub fn public(&self) -> (r: FarmerId)
        ensures
            r@ == sr25519_public(self.secret()),
    {
        proof {
            use_type_invariant(self);
        }
        pair_public(&self.secret)
    }

    /// The farmer's signature of `message`.
    pub fn sign(&self, message: &[u8]) -> (r: FarmerSignature)
        ensures
            sr25519_verifies(r@, message@, sr25519_public(self.secret())),
    {
        proof {
            use_type_invariant(self);
        }
        pair_sign(&self.secret, message)
    }

    /// The seal of the block whose header hashes, without the seal, to `header_hash`.
    pub fn seal(&self, header_hash: &BlockHash) -> (r: DigestItem)
        ensures
            crate::digests::seal_of(r) matches Some(signature) && sr25519_verifies(
                signature@,
                header_hash@,
                sr25519_public(self.secret()),
            ),
            r matches DigestItem::Seal(id, data) && id == crate::primitives::POC_ENGINE_ID
                && data@.len() == 64,
    {
        let signature: FarmerSignature = self.sign(header_hash.as_slice());
        let item: DigestItem = DigestItem::poc_seal(signature);
        proof {
            crate::digests::law_seal_reads_back(signature, item);
        }
        item
    }
}

/// Whether an item is a seal that a farmer has put on the block whose header hashes, without the
/// seal, to `header_hash`.
pub open spec fn sealed_by(seal: DigestItem, header_hash: Seq<u8>, public: Seq<u8>) -> bool {
    match crate::digests::seal_of(seal) {
        Some(signature) => sr25519_verifies(signature@, header_hash, public),
        None => false,
    }
}

/// Whether `seal` is a seal that the farmer `public` has put on the block whose header hashes,
/// without the seal, to `header_hash`.
pub fn is_sealed_by(seal: &DigestItem, header_hash: &BlockHash, public: &FarmerId) -> (r: bool)
    ensures
        r == sealed_by(*seal, header_hash@, public@),
        r == (match crate::digests::seal_of(*seal) {
            Some(signature) => sr25519_verifies(signature@, header_hash@, public@),
            None => false,
        }),
{
    match seal.as_poc_seal() {
        Some(signature) => pair_verify(&signature, header_hash.as_slice(), public),
        None => false,
    }
}

/// A secret key is a scalar below the order of the group, in 32 bytes, and any 32 bytes after it:
/// what follows the scalar does not matter.
pub proof fn law_secret_key_is_a_scalar_and_a_seed(scalar: Seq<u8>, seed: Seq<u8>, s: Seq<u8>)
    requires
        scalar.len() == 32,
        seed.len() == 32,
    ensures
        secret_key_bytes(scalar + seed) <==> crate::codec::le_value(scalar)
            < crate::vrf::group_order(),
        secret_key_bytes(s) ==> s.len() == 64,
{
    assert((scalar + seed).take(32) =~= scalar);
}

/// An item is a farmer's seal if and only if it is a seal of this engine that starts with a
/// signature, of 64 bytes, of the hash of the header, which is good for the farmer's key.
pub proof fn law_seal_is_a_signature_of_the_header(
    seal: DigestItem,
    header_hash: Seq<u8>,
    public: Seq<u8>,
)
    ensures
        sealed_by(seal, header_hash, public) <==> (seal matches DigestItem::Seal(id, data) && id
            == crate::primitives::POC_ENGINE_ID && data@.len() >= 64 && sr25519_verifies(
            data@.take(64),
            header_hash,
            public,
        )),
{
    if let DigestItem::Seal(id, data) = seal {
        if data@.len() >= 64 {
            let read = crate::codec::array_from::<64>(data@.subrange(0, 64));
            assert(data@.subrange(0, 64) =~= data@.take(64));
        }
    }
}


} // verus!
