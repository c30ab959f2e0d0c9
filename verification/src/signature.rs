//! The signing key, and signatures that the signer can be recovered from.

use vstd::prelude::*;

use crate::error::Error;
use crate::primitives;
use crate::primitives::{keccak256, Address, B256};
use crate::text;

verus! {

/// The order of the secp256k1 curve.
pub open spec fn curve_order() -> nat {
    0xfffffffffffffffffffffffffffffffebaaedce6af48a03bbfd25e8cd0364141nat
}

/// Whether `bytes` is a secp256k1 secret: 32 bytes that write a number from one up to
/// the order of the curve.
pub open spec fn is_secret(bytes: Seq<u8>) -> bool {
    bytes.len() == 32 && 0 < text::big_endian(bytes) < curve_order()
}

/// A secp256k1 secret.
#[derive(Clone, Copy)]
pub struct SecretKey {
    bytes: [u8; 32],
}

impl View for SecretKey {
    type V = Seq<u8>;

    closed spec fn view(&self) -> Seq<u8> {
        self.bytes@
    }
}

impl SecretKey {
    #[verifier::type_invariant]
    spec fn well_formed(self) -> bool {
        is_secret(self.bytes@)
    }
}

/// The public key of a secret, as `PublicKey::serialize_uncompressed` writes it: a
/// leading byte and the two coordinates.
pub uninterp spec fn public_key_bytes(secret: Seq<u8>) -> Seq<u8>;

/// The recoverable signature of a digest under a secret, with the RFC 6979 nonce:
/// its compact form and its recovery id.
pub uninterp spec fn recoverable_signature(secret: Seq<u8>, digest: Seq<u8>) -> (Seq<u8>, int);

/// The public key for which a compact signature with a recovery id is valid over a
/// digest, in uncompressed form, if there is one.
pub uninterp spec fn recovered_public_key(
    digest: Seq<u8>,
    compact: Seq<u8>,
    recovery_id: int,
) -> Option<Seq<u8>>;

/// Calls `secp256k1::SecretKey::from_slice`, which takes exactly the secrets.
#[verifier::external_body]
fn secret_from_slice(data: &[u8]) -> (secret: Option<[u8; 32]>)
    ensures
        match secret {
            Some(bytes) => bytes@ == data@ && is_secret(data@),
            None => !is_secret(data@),
        },
{
    secp256k1::SecretKey::from_slice(data).ok().map(|key| key.secret_bytes())
}

/// Calls `Secp256k1::generate_keypair` with the generator of the thread. Which secret
/// comes back is left to chance; it is a secret.
#[verifier::external_body]
fn random_secret() -> (secret: [u8; 32])
    ensures
        is_secret(secret@),
{
    secp256k1::SECP256K1.generate_keypair(&mut rand::thread_rng()).0.secret_bytes()
}

/// Calls `secp256k1::PublicKey::from_secret_key`, whose result `public_key_bytes`
/// names.
#[verifier::external_body]
fn public_key(secret: &[u8; 32]) -> (key: [u8; 65])
    requires
        is_secret(secret@),
    ensures
        key@ == public_key_bytes(secret@),
{
    let key = secp256k1::SecretKey::from_slice(secret).unwrap();
    secp256k1::PublicKey::from_secret_key(secp256k1::SECP256K1, &key).serialize_uncompressed()
}

/// Calls `Secp256k1::sign_ecdsa_recoverable`, whose result `recoverable_signature`
/// names. The recovery id is one of four, and what is recovered from the signature
/// over the same digest is the public key of the secret.
#[verifier::external_body]
fn sign_recoverable(secret: &[u8; 32], digest: &[u8; 32]) -> (signature: ([u8; 64], i32))
    requires
        is_secret(secret@),
    ensures
        (signature.0@, signature.1 as int) == recoverable_signature(secret@, digest@),
        0 <= signature.1 <= 3,
        recovered_public_key(digest@, signature.0@, signature.1 as int) == Some(
            public_key_bytes(secret@),
        ),
{
    let key = secp256k1::SecretKey::from_slice(secret).unwrap();
    let message = secp256k1::Message::from_digest(*digest);
    let signature = secp256k1::SECP256K1.sign_ecdsa_recoverable(&message, &key);
    let (id, compact) = signature.serialize_compact();
    (compact, id.to_i32())
}

/// Calls `Secp256k1::recover_ecdsa` on what `RecoverableSignature::from_compact` and
/// `RecoveryId::from_i32` make of the arguments; `recovered_public_key` names the
/// result, which is none where one of the three reports an error.
#[verifier::external_body]
fn recover_public_key(digest: &[u8; 32], compact: &[u8; 64], recovery_id: i32) -> (key: Option<
    [u8; 65],
>)
    ensures
        match key {
            Some(key) => recovered_public_key(digest@, compact@, recovery_id as int) == Some(key@),
            None => recovered_public_key(digest@, compact@, recovery_id as int) is None,
        },
{
    let id = secp256k1::ecdsa::RecoveryId::from_i32(recovery_id).ok()?;
    let signature = secp256k1::ecdsa::RecoverableSignature::from_compact(compact, id).ok()?;
    let message = secp256k1::Message::from_digest(*digest);
    let key = secp256k1::SECP256K1.recover_ecdsa(&message, &signature).ok()?;
    Some(key.serialize_uncompressed())
}

/// The address of a public key in uncompressed form: the last twenty bytes of the
/// digest of its coordinates.
pub open spec fn public_key_address(key: Seq<u8>) -> Seq<u8> {
    primitives::keccak256_digest(key.subrange(1, 65)).subrange(12, 32)
}

/// The address of a secret.
pub open spec fn secret_address(secret: Seq<u8>) -> Seq<u8> {
    public_key_address(public_key_bytes(secret))
}

/// A signature on the wire: its compact form and 27 more than its recovery id.
pub open spec fn signature_bytes(secret: Seq<u8>, digest: Seq<u8>) -> Seq<u8> {
    let (compact, recovery_id) = recoverable_signature(secret, digest);
    compact.push((27 + recovery_id) as u8)
}

/// What the signer of a signature over a digest is.
pub open spec fn signer(signature: Seq<u8>, digest: Seq<u8>) -> Result<Address, Error> {
    let v = signature[64];
    if !(27 <= v <= 30) {
        Err(Error::InvalidRecoveryId)
    } else {
        match recovered_public_key(digest, signature.subrange(0, 64), v - 27) {
            Some(key) => Ok(primitives::address_of(public_key_address(key))),
            None => Err(Error::InvalidSignature),
        }
    }
}

impl SecretKey {
    /// Reads a secret from its bytes.
    pub fn from_slice(data: &[u8]) -> (key: Result<SecretKey, Error>)
        ensures
            match key {
                Ok(key) => key@ == data@ && is_secret(data@),
                Err(error) => !is_secret(data@) && error == Error::InvalidPrivateKey,
            },
    {
        match secret_from_slice(data) {
            Some(bytes) => Ok(SecretKey { bytes }),
            None => Err(Error::InvalidPrivateKey),
        }
    }

    /// Makes a new secret.
    pub fn generate() -> (key: SecretKey)
        ensures
            is_secret(key@),
    {
        SecretKey { bytes: random_secret() }
    }

    /// The bytes of the secret.
    pub fn secret_bytes(&self) -> (bytes: [u8; 32])
        ensures
            bytes@ == self@,
            is_secret(self@),
    {
        proof {
            use_type_invariant(self);
        }
        self.bytes
    }
}

fn address_of_public_key(key: &[u8; 65]) -> (address: Address)
    ensures
        address@ == public_key_address(key@),
{
    let coordinates = vstd::slice::slice_subrange(key.as_slice(), 1, 65);
    let digest = keccak256(coordinates);
    let mut bytes: [u8; 20] = [0u8; 20];
    let mut i: usize = 0;
    while i < 20
        invariant
            i <= 20,
            forall|j: int| 0 <= j < i ==> bytes@[j] == digest@[12 + j],
        decreases 20 - i,
    {
        bytes[i] = digest[12 + i];
        i += 1;
    }
    assert(bytes@ =~= digest@.subrange(12, 32));
    Address(bytes)
}

/// The address that the prover signs under.
pub fn address_from_private_key(key: &SecretKey) -> (address: Address)
    ensures
        address@ == secret_address(key@),
        is_secret(key@),
{
    proof {
        use_type_invariant(key);
    }
    address_of_public_key(&public_key(&key.bytes))
}

/// Signs a digest. The signer of the signature over that digest is the address of
/// the key.
pub fn sign_message(key: &SecretKey, message: &B256) -> (signature: Result<[u8; 65], Error>)
    ensures
        signature is Ok,
        signature->Ok_0@ == signature_bytes(key@, message@),
        signer(signature->Ok_0@, message@) == Ok::<Address, Error>(
            primitives::address_of(secret_address(key@)),
        ),
{
    proof {
        use_type_invariant(key);
    }
    let (compact, recovery_id) = sign_recoverable(&key.bytes, &message.0);
    let mut signature: [u8; 65] = [0u8; 65];
    let mut i: usize = 0;
    while i < 64
        invariant
            i <= 64,
            forall|j: int| 0 <= j < i ==> signature@[j] == compact@[j],
        decreases 64 - i,
    {
        signature[i] = compact[i];
        i += 1;
    }
    signature[64] = (27 + recovery_id) as u8;
    assert(signature@ =~= signature_bytes(key@, message@));
    assert(signature@.subrange(0, 64) =~= compact@);
    Ok(signature)
}

/// Recovers who signed a digest.
pub fn recover_signer(signature: &[u8; 65], message: &B256) -> (address: Result<Address, Error>)
    ensures
        address == signer(signature@, message@),
{
    let v = signature[64];
    if v < 27 || v > 30 {
        return Err(Error::InvalidRecoveryId);
    }
    let mut compact: [u8; 64] = [0u8; 64];
    let mut i: usize = 0;
    while i < 64
        invariant
            i <= 64,
            forall|j: int| 0 <= j < i ==> compact@[j] == signature@[j],
        decreases 64 - i,
    {
        compact[i] = signature[i];
        i += 1;
    }
    assert(compact@ =~= signature@.subrange(0, 64));
    match recover_public_key(&message.0, &compact, (v - 27) as i32) {
        Some(key) => {
            let address = address_of_public_key(&key);
            proof {
                primitives::address_is_its_bytes(address);
            }
            Ok(address)
        },
        None => Err(Error::InvalidSignature),
    }
}

/// The secrets are the 32-byte numbers between zero and the order of the curve, both
/// excluded: all of these and no others.
pub proof fn secrets_are_all_numbers_below_the_order(bytes: Seq<u8>)
    ensures
        is_secret(bytes) <==> bytes.len() == 32 && 1 <= text::big_endian(bytes)
            <= 0xfffffffffffffffffffffffffffffffebaaedce6af48a03bbfd25e8cd0364140nat,
{
}

/// The address of a public key is the last twenty bytes of a digest of 32, taken over
/// the key without its leading byte.
pub proof fn address_is_the_end_of_the_digest(key: Seq<u8>)
    requires
        key.len() == 65,
        primitives::keccak256_digest(key.drop_first()).len() == 32,
    ensures
        public_key_address(key).len() == 20,
        forall|i: int|
            0 <= i < 20 ==> #[trigger] public_key_address(key)[i] == primitives::keccak256_digest(
                key.drop_first(),
            )[12 + i],
{
    assert(key.subrange(1, 65) =~= key.drop_first());
}

/// The address of a secret is that of its public key.
pub proof fn secret_address_is_that_of_the_public_key(secret: Seq<u8>)
    ensures
        secret_address(secret) == public_key_address(public_key_bytes(secret)),
{
}

/// A signature is 65 bytes long: the compact form in its order, and then the recovery
/// id counted from 27.
pub proof fn signature_ends_in_the_recovery_id(secret: Seq<u8>, digest: Seq<u8>)
    requires
        recoverable_signature(secret, digest).0.len() == 64,
        0 <= recoverable_signature(secret, digest).1 <= 3,
    ensures
        signature_bytes(secret, digest).len() == 65,
        forall|i: int|
            0 <= i < 64 ==> #[trigger] signature_bytes(secret, digest)[i]
                == recoverable_signature(secret, digest).0[i],
        signature_bytes(secret, digest)[64] - 27 == recoverable_signature(secret, digest).1,
{
}

/// The signer of a signature is the address of the key that is recovered with the
/// recovery id that its last byte counts from 27. Without such an id, and without such
/// a key, there is none.
pub proof fn signer_has_the_recovered_key(
    compact: Seq<u8>,
    v: u8,
    digest: Seq<u8>,
    address: Address,
)
    requires
        compact.len() == 64,
    ensures
        signer(compact.push(v), digest) == Err::<Address, Error>(Error::InvalidRecoveryId) <==> v
            < 27 || v > 30,
        27 <= v <= 30 ==> (signer(compact.push(v), digest) == Err::<Address, Error>(
            Error::InvalidSignature,
        ) <==> recovered_public_key(digest, compact, v - 27) is None),
        27 <= v <= 30 && recovered_public_key(digest, compact, v - 27) is Some
            && public_key_address(recovered_public_key(digest, compact, v - 27)->0) == address@
            ==> signer(compact.push(v), digest) == Ok::<Address, Error>(address),
{
    assert(compact.push(v).subrange(0, 64) =~= compact);
    primitives::address_is_its_bytes(address);
}

} // verus!
