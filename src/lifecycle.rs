use vstd::prelude::*;
use vstd::string::StringSliceAdditionalSpecFns;

use crate::codec::{
    CodecError, Seed, decode_seed, decoded_fixed, DIGEST_LEN, SEED_LEN, SIGNATURE_LEN,
    VERIFYING_KEY_LEN,
};
use crate::hex_text::{HexError, decode_hex_exact, decoded_hex_exact};
use crate::mldsa::{accepts, keygen_from_seed, public_key_of, sign, signature_of, verify_bytes};

verus! {

/// Why a key lifecycle command refused its input, before any signing or
/// verification was attempted.
#[derive(Clone, Copy, Debug, PartialEq, Eq, Structural)]
pub enum CommandError {
    /// The seed file does not hold exactly 32 bytes.
    Seed(CodecError),
    /// The digest argument is not hex text of exactly 32 bytes.
    Digest(HexError),
    /// The verifying-key file does not hold exactly 1952 bytes.
    VerifyingKey(CodecError),
    /// The signature file does not hold exactly 3309 bytes.
    Signature(CodecError),
}

/// The outcome of verifying well-formed input.
#[derive(Clone, Copy, Debug, PartialEq, Eq, Structural)]
pub enum Verdict {
    Valid,
    Invalid,
}

impl Verdict {
    /// The process exit code that reports the verdict.
    pub fn exit_code(&self) -> (r: i32)
        ensures
            r == (match self {
                Verdict::Valid => 0i32,
                Verdict::Invalid => 1i32,
            }),
    {
        match self {
            Verdict::Valid => 0,
            Verdict::Invalid => 1,
        }
    }

    /// The line printed for the verdict.
    pub fn label(&self) -> (r: &'static str)
        ensures
            r@ == (match self {
                Verdict::Valid => "Valid"@,
                Verdict::Invalid => "Invalid"@,
            }),
    {
        proof {
            reveal_strlit("Valid");
            reveal_strlit("Invalid");
        }
        match self {
            Verdict::Valid => "Valid",
            Verdict::Invalid => "Invalid",
        }
    }
}

/// The files that key generation writes: the encoded verifying key and the seed
/// (not the expanded signing key).
#[derive(Debug)]
pub struct KeyFiles {
    pub verifying_key: Vec<u8>,
    pub seed: Vec<u8>,
}

/// Key generation from fresh entropy: derives the key pair of the seed and
/// returns the bytes of the two files.
pub fn keygen_command(seed: &Seed) -> (r: KeyFiles)
    requires
        seed.wf(),
    ensures
        r.verifying_key@ == public_key_of(seed@),
        r.verifying_key@.len() == VERIFYING_KEY_LEN,
        r.seed@ == seed@,
        r.seed@.len() == SEED_LEN,
{
    let kp = keygen_from_seed(seed);
    let verifying_key = crate::codec::encode_verifying_key(&kp.verifying_key);
    let seed_bytes = crate::codec::encode_seed(seed);
    KeyFiles { verifying_key, seed: seed_bytes }
}

/// What signing gives for the bytes of a seed file and a digest argument.
pub open spec fn signed_digest(seed: Seq<u8>, hash_text: Seq<u8>) -> Result<Seq<u8>, CommandError> {
    match decoded_fixed(seed, SEED_LEN) {
        Err(e) => Err(CommandError::Seed(e)),
        Ok(s) => match decoded_hex_exact(hash_text, DIGEST_LEN) {
            Err(e) => Err(CommandError::Digest(e)),
            Ok(d) => Ok(signature_of(s, d)),
        },
    }
}

/// What verification gives for the bytes of a key file, a digest argument and
/// the bytes of a signature file. The inputs are checked in that order, all
/// before verification; a signature of the right length that ML-DSA does not
/// accept is `Invalid`.
pub open spec fn verify_outcome(key: Seq<u8>, hash_text: Seq<u8>, sig: Seq<u8>) -> Result<
    Verdict,
    CommandError,
> {
    match decoded_fixed(key, VERIFYING_KEY_LEN) {
        Err(e) => Err(CommandError::VerifyingKey(e)),
        Ok(k) => match decoded_hex_exact(hash_text, DIGEST_LEN) {
            Err(e) => Err(CommandError::Digest(e)),
            Ok(d) => match decoded_fixed(sig, SIGNATURE_LEN) {
                Err(e) => Err(CommandError::Signature(e)),
                Ok(s) => Ok(
                    if accepts(k, d, Seq::empty(), s) {
                        Verdict::Valid
                    } else {
                        Verdict::Invalid
                    },
                ),
            },
        },
    }
}

/// Signs a 32-byte digest, given as hex with an optional `0x` prefix, with the
/// key derived from the bytes of a seed file; returns the encoded signature.
pub fn sign_command(seed_file: &[u8], hash_hex: &str) -> (r: Result<Vec<u8>, CommandError>)
    ensures
        match r {
            Ok(sig) => signed_digest(seed_file@, hash_hex.spec_bytes()) == Ok::<
                Seq<u8>,
                CommandError,
            >(sig@) && sig@.len() == SIGNATURE_LEN,
            Err(e) => signed_digest(seed_file@, hash_hex.spec_bytes()) == Err::<
                Seq<u8>,
                CommandError,
            >(e),
        },
{
    let seed = match decode_seed(seed_file) {
        Ok(s) => s,
        Err(e) => return Err(CommandError::Seed(e)),
    };
    let digest = match decode_hex_exact(hash_hex, DIGEST_LEN) {
        Ok(d) => d,
        Err(e) => return Err(CommandError::Digest(e)),
    };
    let sig = sign(&seed, digest.as_slice());
    Ok(crate::codec::encode_signature(&sig))
}

/// Verifies a signature of a 32-byte digest, given as hex with an optional
/// `0x` prefix, from the bytes of a key file and of a signature file.
pub fn verify_command(key_file: &[u8], hash_hex: &str, sig_file: &[u8]) -> (r: Result<
    Verdict,
    CommandError,
>)
    ensures
        r == verify_outcome(key_file@, hash_hex.spec_bytes(), sig_file@),
{
    if key_file.len() != VERIFYING_KEY_LEN {
        return Err(
            CommandError::VerifyingKey(
                CodecError::WrongLength { expected: VERIFYING_KEY_LEN, found: key_file.len() },
            ),
        );
    }
    let digest = match decode_hex_exact(hash_hex, DIGEST_LEN) {
        Ok(d) => d,
        Err(e) => return Err(CommandError::Digest(e)),
    };
    if sig_file.len() != SIGNATURE_LEN {
        return Err(
            CommandError::Signature(
                CodecError::WrongLength { expected: SIGNATURE_LEN, found: sig_file.len() },
            ),
        );
    }
    let no_context: Vec<u8> = Vec::new();
    if verify_bytes(key_file, digest.as_slice(), no_context.as_slice(), sig_file) {
        Ok(Verdict::Valid)
    } else {
        Ok(Verdict::Invalid)
    }
}

} // verus!
