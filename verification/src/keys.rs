//! Ed25519 key management for the notary.
//!
//! The notary signs session proofs with Ed25519. A key pair is held as its
//! 32-byte secret seed; the public key and signatures are derived from it.

use vstd::prelude::*;
use vstd::slice::slice_to_vec;

use crate::text::{concat2, decimal, decimal_of};

verus! {

/// The 32-byte Ed25519 public key that `ed25519-dalek` derives from a secret seed.
pub uninterp spec fn ed25519_public_key_of(seed: Seq<u8>) -> Seq<u8>;

/// The 64-byte Ed25519 signature that `ed25519-dalek` produces for `message`
/// under the key with secret seed `seed` (Ed25519 signing is deterministic).
pub uninterp spec fn ed25519_signature_of(seed: Seq<u8>, message: Seq<u8>) -> Seq<u8>;

/// Whether `ed25519-dalek` accepts these 32 bytes as a public key (they
/// decompress to a curve point).
pub uninterp spec fn ed25519_key_accepted(public_key: Seq<u8>) -> bool;

/// Whether `ed25519-dalek` accepts `signature` on `message` under `public_key`.
pub uninterp spec fn ed25519_verifies(public_key: Seq<u8>, message: Seq<u8>, signature: Seq<u8>) -> bool;

/// The text of the error that `ed25519-dalek` gives when it refuses these 32
/// bytes as a public key.
pub uninterp spec fn ed25519_key_error_of(public_key: Seq<u8>) -> Seq<char>;

#[verifier::external_type_specification]
#[verifier::external_body]
pub struct ExVerifyingKey(ed25519_dalek::VerifyingKey);

/// A fresh random secret seed.
///
/// Trusted: calls `ed25519_dalek::SigningKey::generate` with the operating
/// system's random number generator; nothing is promised about the bytes.
#[verifier::external_body]
fn random_seed() -> (seed: [u8; 32]) {
    ed25519_dalek::SigningKey::generate(&mut rand::rngs::OsRng).to_bytes()
}

/// The public key of a secret seed.
///
/// Trusted: calls `SigningKey::verifying_key` on the key built from the seed.
/// The result is named `ed25519_public_key_of` of the seed; being the encoding
/// of a curve point, it is accepted by `VerifyingKey::from_bytes`.
#[verifier::external_body]
fn ed25519_derive_public_key(seed: &[u8; 32]) -> (public_key: [u8; 32])
    ensures
        public_key@ == ed25519_public_key_of(seed@),
        ed25519_key_accepted(public_key@),
{
    ed25519_dalek::SigningKey::from_bytes(seed).verifying_key().to_bytes()
}

/// Sign a message with the key of a secret seed.
///
/// Trusted: calls `Signer::sign` of `ed25519_dalek::SigningKey`. The result is
/// named `ed25519_signature_of` of the seed and message; as with every Ed25519
/// signature made by the signer, the verifying key of the same seed accepts it.
#[verifier::external_body]
fn ed25519_sign(seed: &[u8; 32], message: &[u8]) -> (signature: [u8; 64])
    ensures
        signature@ == ed25519_signature_of(seed@, message@),
        ed25519_verifies(ed25519_public_key_of(seed@), message@, signature@),
{
    ed25519_dalek::Signer::sign(&ed25519_dalek::SigningKey::from_bytes(seed), message).to_bytes()
}

/// Check that 32 bytes are an Ed25519 public key.
///
/// Trusted: calls `VerifyingKey::from_bytes` on the bytes as a 32-byte array;
/// `Ok` exactly when it succeeds. The error text is the `Display` of the
/// crate's `SignatureError`, named `ed25519_key_error_of` of the bytes.
#[verifier::external_body]
pub(crate) fn ed25519_check_public_key(public_key: &[u8]) -> (r: Result<(), String>)
    requires
        public_key@.len() == 32,
    ensures
        r is Ok <==> ed25519_key_accepted(public_key@),
        r matches Err(m) ==> m@ == ed25519_key_error_of(public_key@),
{
    match ed25519_dalek::VerifyingKey::from_bytes(public_key.try_into().expect("32 bytes")) {
        Ok(_) => Ok(()),
        Err(e) => Err(e.to_string()),
    }
}

/// Verify an Ed25519 signature.
///
/// Trusted: calls `Verifier::verify` of the `VerifyingKey` built from the
/// bytes (which the precondition makes succeed); the result is named
/// `ed25519_verifies` of the three byte strings.
#[verifier::external_body]
pub(crate) fn ed25519_verify(public_key: &[u8], message: &[u8], signature: &[u8]) -> (ok: bool)
    requires
        public_key@.len() == 32,
        signature@.len() == 64,
        ed25519_key_accepted(public_key@),
    ensures
        ok == ed25519_verifies(public_key@, message@, signature@),
{
    match ed25519_dalek::VerifyingKey::from_bytes(public_key.try_into().expect("32 bytes")) {
        Ok(key) => ed25519_dalek::Verifier::verify(
            &key,
            message,
            &ed25519_dalek::Signature::from_bytes(signature.try_into().expect("64 bytes")),
        ).is_ok(),
        Err(_) => false,
    }
}

/// An Ed25519 key pair for the notary.
///
/// The signing key is used to produce session proof signatures. The public
/// key is distributed to relying parties so they can verify proofs.
pub struct NotaryKeyPair {
    seed: [u8; 32],
}

impl NotaryKeyPair {
    /// The 32-byte secret seed of this key pair.
    pub closed spec fn secret_seed(&self) -> Seq<u8> {
        self.seed@
    }

    /// The public key of this key pair.
    pub open spec fn public_key(&self) -> Seq<u8> {
        ed25519_public_key_of(self.secret_seed())
    }

    /// Generate a new random Ed25519 key pair.
    pub fn generate() -> (kp: Self)
        ensures
            kp.secret_seed().len() == 32,
    {
        NotaryKeyPair { seed: random_seed() }
    }

    /// Load a key pair from a 32-byte secret seed.
    pub fn from_seed(seed: &[u8; 32]) -> (kp: Self)
        ensures
            kp.secret_seed() == seed@,
    {
        NotaryKeyPair { seed: *seed }
    }

    /// Restore a key pair from the contents of a key file, which must be the
    /// raw 32-byte seed; any other length is refused with a message naming it.
    pub fn from_key_file(contents: &[u8]) -> (r: Result<Self, String>)
        ensures
            contents@.len() == 32 ==> (r matches Ok(kp) && kp.secret_seed() == contents@),
            contents@.len() != 32 ==> (r matches Err(msg) && msg@
                == "key file must be exactly 32 bytes, got "@ + decimal_of(contents@.len())),
    {
        if contents.len() != 32 {
            let count = decimal(contents.len() as u64);
            return Err(concat2("key file must be exactly 32 bytes, got ", count.as_str()));
        }
        let mut seed: [u8; 32] = [0u8; 32];
        for i in 0..32usize
            invariant
                contents@.len() == 32,
                forall|j: int| 0 <= j < i ==> seed@[j] == contents@[j],
        {
            seed[i] = contents[i];
        }
        assert(seed@ =~= contents@);
        Ok(NotaryKeyPair { seed })
    }

    /// The 32-byte secret seed, for persistent storage.
    pub fn seed(&self) -> (seed: &[u8; 32])
        ensures
            seed@ == self.secret_seed(),
    {
        &self.seed
    }

    /// The public verifying key as 32 bytes.
    pub fn public_key_bytes(&self) -> (bytes: Vec<u8>)
        ensures
            bytes@ == self.public_key(),
            bytes@.len() == 32,
            ed25519_key_accepted(bytes@),
    {
        let pk = ed25519_derive_public_key(&self.seed);
        slice_to_vec(pk.as_slice())
    }

    /// The verifying key as an `ed25519-dalek` value.
    ///
    /// Trusted: calls `SigningKey::verifying_key`; the value is opaque here.
    #[verifier::external_body]
    pub fn verifying_key(&self) -> ed25519_dalek::VerifyingKey {
        ed25519_dalek::SigningKey::from_bytes(&self.seed).verifying_key()
    }

    /// Sign a message, returning the 64-byte Ed25519 signature.
    pub fn sign(&self, message: &[u8]) -> (signature: Vec<u8>)
        ensures
            signature@ == ed25519_signature_of(self.secret_seed(), message@),
            signature@.len() == 64,
            ed25519_verifies(self.public_key(), message@, signature@),
    {
        let sig = ed25519_sign(&self.seed, message);
        slice_to_vec(sig.as_slice())
    }
}

} // verus!
