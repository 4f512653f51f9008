//! The holder of the signing key.

use vstd::prelude::*;

verus! {

/// The Ed25519 public key that belongs to a 32-byte secret key.
pub uninterp spec fn ed25519_public_key(secret: Seq<u8>) -> Seq<u8>;

/// The Ed25519 signature of `message` under a 32-byte secret key.
pub uninterp spec fn ed25519_signature(secret: Seq<u8>, message: Seq<u8>) -> Seq<u8>;

/// Relies on ed25519_dalek's `SigningKey::from_bytes`, `verifying_key` and
/// `VerifyingKey::to_bytes`: the 32-byte public key is a function of the
/// secret key alone.
#[verifier::external_body]
fn public_key_of(secret: &[u8; 32]) -> (r: [u8; 32])
    ensures
        r@ == ed25519_public_key(secret@),
{
    ed25519_dalek::SigningKey::from_bytes(secret).verifying_key().to_bytes()
}

/// Relies on ed25519_dalek's `Signer` impl for `SigningKey`: Ed25519 signing
/// is deterministic in the key and the message, and a signature has 64 bytes.
#[verifier::external_body]
fn signature_of(secret: &[u8; 32], message: &[u8]) -> (r: Vec<u8>)
    ensures
        r@ == ed25519_signature(secret@, message@),
        r@.len() == 64,
{
    let key = ed25519_dalek::SigningKey::from_bytes(secret);
    ed25519_dalek::Signer::sign(&key, message).to_vec()
}

/// Signs arbitrary bytes with one fixed secret key.
pub struct Signer {
    secret: [u8; 32],
}

impl Signer {
    /// The secret key this signer holds.
    pub closed spec fn secret_key(&self) -> Seq<u8> {
        self.secret@
    }

    pub fn from_secret(secret: [u8; 32]) -> (r: Signer)
        ensures
            r.secret_key() == secret@,
    {
        Signer { secret }
    }

    pub fn sign(&self, payload: &[u8]) -> (r: Vec<u8>)
        ensures
            r@ == ed25519_signature(self.secret_key(), payload@),
            r@.len() == 64,
    {
        signature_of(&self.secret, payload)
    }

    pub fn public_key(&self) -> (r: [u8; 32])
        ensures
            r@ == ed25519_public_key(self.secret_key()),
    {
        public_key_of(&self.secret)
    }
}

} // verus!
