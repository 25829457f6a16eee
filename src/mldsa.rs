use vstd::prelude::*;

use crate::codec::{
    Seed, Signature, VerifyingKey, SEED_LEN, SIGNATURE_LEN, VERIFYING_KEY_LEN,
};
use ml_dsa::{Keypair, MlDsa65, Signer};

verus! {

/// Length in bytes of an expanded ML-DSA-65 signing key.
pub const EXPANDED_SECRET_KEY_LEN: usize = 4032;

/// The encoded verifying key that ML-DSA-65 key generation derives from a seed.
pub uninterp spec fn public_key_of(seed: Seq<u8>) -> Seq<u8>;

/// The encoded expanded signing key that ML-DSA-65 key generation derives from a seed.
pub uninterp spec fn expanded_secret_key_of(seed: Seq<u8>) -> Seq<u8>;

/// The deterministic ML-DSA-65 signature, with an empty context, of a message
/// under the key derived from a seed.
pub uninterp spec fn signature_of(seed: Seq<u8>, message: Seq<u8>) -> Seq<u8>;

/// Whether ML-DSA-65 verification accepts an encoded signature of a message
/// under an encoded verifying key and a context string.
pub uninterp spec fn accepts(key: Seq<u8>, message: Seq<u8>, context: Seq<u8>, sig: Seq<u8>) -> bool;

/// Relies on ml_dsa::SigningKey::<MlDsa65>::from_seed, then the derived key's
/// verifying key and VerifyingKey::encode: a deterministic 1952-byte encoding.
#[verifier::external_body]
fn derive_public_key(seed: &[u8]) -> (r: Vec<u8>)
    requires
        seed@.len() == SEED_LEN,
    ensures
        r@ == public_key_of(seed@),
        r@.len() == VERIFYING_KEY_LEN,
{
    let xi = ml_dsa::Seed::try_from(seed).expect("seed is 32 bytes");
    ml_dsa::SigningKey::<MlDsa65>::from_seed(&xi).verifying_key().encode().to_vec()
}

/// Relies on ml_dsa::ExpandedSigningKey::<MlDsa65>::from_seed and its
/// to_expanded encoding: a deterministic 4032-byte encoding.
#[verifier::external_body]
#[allow(deprecated)]
fn derive_expanded_secret_key(seed: &[u8]) -> (r: Vec<u8>)
    requires
        seed@.len() == SEED_LEN,
    ensures
        r@ == expanded_secret_key_of(seed@),
        r@.len() == EXPANDED_SECRET_KEY_LEN,
{
    let xi = ml_dsa::Seed::try_from(seed).expect("seed is 32 bytes");
    ml_dsa::ExpandedSigningKey::<MlDsa65>::from_seed(&xi).to_expanded().to_vec()
}

/// Relies on ml_dsa::SigningKey::<MlDsa65>::from_seed and its Signer::sign,
/// which uses the deterministic variant with an empty context and cannot fail
/// there, then Signature::encode: a 3309-byte encoding.
#[verifier::external_body]
fn sign_with_seed(seed: &[u8], message: &[u8]) -> (r: Vec<u8>)
    requires
        seed@.len() == SEED_LEN,
    ensures
        r@ == signature_of(seed@, message@),
        r@.len() == SIGNATURE_LEN,
{
    let xi = ml_dsa::Seed::try_from(seed).expect("seed is 32 bytes");
    ml_dsa::SigningKey::<MlDsa65>::from_seed(&xi).sign(message).encode().to_vec()
}

/// Relies on ml_dsa::VerifyingKey::<MlDsa65>::decode of the key bytes, on
/// Signature::<MlDsa65>::try_from of the signature bytes (a signature that does
/// not decode is not accepted) and on VerifyingKey::verify_with_context, which
/// rejects a context longer than 255 bytes.
#[verifier::external_body]
fn verify_encoded(key: &[u8], message: &[u8], context: &[u8], sig: &[u8]) -> (r: bool)
    requires
        key@.len() == VERIFYING_KEY_LEN,
        sig@.len() == SIGNATURE_LEN,
    ensures
        r == accepts(key@, message@, context@, sig@),
        context@.len() > 255 ==> !r,
{
    let enc = ml_dsa::EncodedVerifyingKey::<MlDsa65>::try_from(key).expect("key is 1952 bytes");
    let vk = ml_dsa::VerifyingKey::<MlDsa65>::decode(&enc);
    match ml_dsa::Signature::<MlDsa65>::try_from(sig) {
        Ok(s) => vk.verify_with_context(message, context, &s),
        Err(_) => false,
    }
}

/// A key pair derived from a seed: the verifying key and the expanded signing key.
#[derive(Debug)]
pub struct KeyPair {
    pub verifying_key: VerifyingKey,
    pub expanded_secret_key: Vec<u8>,
}

/// Derives the key pair of a seed.
pub fn keygen_from_seed(seed: &Seed) -> (r: KeyPair)
    requires
        seed.wf(),
    ensures
        r.verifying_key@ == public_key_of(seed@),
        r.verifying_key.wf(),
        r.expanded_secret_key@ == expanded_secret_key_of(seed@),
        r.expanded_secret_key@.len() == EXPANDED_SECRET_KEY_LEN,
{
    let verifying_key = VerifyingKey::from_vec(derive_public_key(seed.as_bytes()));
    KeyPair { verifying_key, expanded_secret_key: derive_expanded_secret_key(seed.as_bytes()) }
}

/// Signs a message, deterministically, with the key derived from a seed.
pub fn sign(seed: &Seed, message: &[u8]) -> (r: Signature)
    requires
        seed.wf(),
    ensures
        r@ == signature_of(seed@, message@),
        r.wf(),
{
    Signature::from_vec(sign_with_seed(seed.as_bytes(), message))
}

/// Verifies a signature of a message under a verifying key and a context string.
pub fn verify(key: &VerifyingKey, message: &[u8], context: &[u8], sig: &Signature) -> (r: bool)
    requires
        key.wf(),
        sig.wf(),
    ensures
        r == accepts(key@, message@, context@, sig@),
{
    verify_encoded(key.as_bytes(), message, context, sig.as_bytes())
}

/// Verification of arbitrary byte strings that fails closed: a key or a
/// signature of the wrong length is not accepted, and no error is raised.
pub fn verify_bytes(key: &[u8], message: &[u8], context: &[u8], sig: &[u8]) -> (r: bool)
    ensures
        r == (key@.len() == VERIFYING_KEY_LEN && sig@.len() == SIGNATURE_LEN && accepts(
            key@,
            message@,
            context@,
            sig@,
        )),
{
    if key.len() != VERIFYING_KEY_LEN || sig.len() != SIGNATURE_LEN {
        return false;
    }
    verify_encoded(key, message, context, sig)
}

/// Key derivation is a function of the seed: any two key pairs derived from
/// the same seed have byte-identical verifying and expanded signing keys.
pub proof fn lemma_keygen_deterministic(seed: Seed, a: KeyPair, b: KeyPair)
    requires
        seed.wf(),
        a.verifying_key@ == public_key_of(seed@),
        a.expanded_secret_key@ == expanded_secret_key_of(seed@),
        b.verifying_key@ == public_key_of(seed@),
        b.expanded_secret_key@ == expanded_secret_key_of(seed@),
    ensures
        a.verifying_key@ == b.verifying_key@,
        a.expanded_secret_key@ == b.expanded_secret_key@,
{
}

} // verus!
