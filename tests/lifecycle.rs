use pq_sigkit::codec::{decode_seed, decode_signature, decode_verifying_key, encode_verifying_key, CodecError};
use pq_sigkit::hex_text::HexError;
use pq_sigkit::lifecycle::{keygen_command, sign_command, verify_command, CommandError, Verdict};
use pq_sigkit::mldsa::{keygen_from_seed, sign, verify, verify_bytes, EXPANDED_SECRET_KEY_LEN};
use pq_sigkit::sample::{generate_sample, sample_message};

const MSG: &str = "Hello!";

fn seed_of(b: u8) -> pq_sigkit::codec::Seed {
    decode_seed(&[b; 32]).unwrap()
}

#[test]
fn ml_dsa_keygen_sign_verify() {
    let bytes: [u8; 32] = rand::random();
    let seed = decode_seed(&bytes).unwrap();
    let kp = keygen_from_seed(&seed);
    let sig = sign(&seed, MSG.as_bytes());
    assert!(verify(&kp.verifying_key, MSG.as_bytes(), &[], &sig));
}

#[test]
fn ml_dsa_verify_with_public_key_only() {
    let bytes: [u8; 32] = rand::random();
    let seed = decode_seed(&bytes).unwrap();
    let kp = keygen_from_seed(&seed);
    let sig = sign(&seed, MSG.as_bytes());
    let pk_encoded = encode_verifying_key(&kp.verifying_key);
    let pk_standalone = decode_verifying_key(&pk_encoded).unwrap();
    assert!(verify(&pk_standalone, MSG.as_bytes(), &[], &sig));
}

#[test]
fn keygen_is_deterministic() {
    let a = keygen_from_seed(&seed_of(0x42));
    let b = keygen_from_seed(&seed_of(0x42));
    assert_eq!(a.verifying_key.as_bytes(), b.verifying_key.as_bytes());
    assert_eq!(a.expanded_secret_key, b.expanded_secret_key);
    assert_eq!(a.expanded_secret_key.len(), EXPANDED_SECRET_KEY_LEN);
    assert_eq!(a.verifying_key.as_bytes().len(), 1952);
    let c = keygen_from_seed(&seed_of(0x43));
    assert_ne!(a.verifying_key.as_bytes(), c.verifying_key.as_bytes());
}

#[test]
fn sign_then_verify_for_several_seeds() {
    for b in [0u8, 1, 0x7f, 0xff] {
        let seed = seed_of(b);
        let digest = [b ^ 0x5a; 32];
        let kp = keygen_from_seed(&seed);
        let sig = sign(&seed, &digest);
        assert_eq!(sig.as_bytes().len(), 3309);
        assert!(verify(&kp.verifying_key, &digest, &[], &sig));
    }
}

#[test]
fn signing_is_deterministic() {
    let seed = seed_of(9);
    let a = sign(&seed, &[1u8; 32]);
    let b = sign(&seed, &[1u8; 32]);
    assert_eq!(a.as_bytes(), b.as_bytes());
}

#[test]
fn flipped_bits_are_rejected() {
    let seed = seed_of(0x33);
    let digest = [0x10u8; 32];
    let kp = keygen_from_seed(&seed);
    let sig = sign(&seed, &digest);
    let pk = kp.verifying_key.as_bytes().to_vec();
    for &(byte, bit) in &[(0usize, 0u8), (17, 3), (100, 7), (1000, 1), (2000, 5), (3000, 2), (3308, 0)] {
        let mut bad = sig.as_bytes().to_vec();
        bad[byte] ^= 1 << bit;
        assert!(!verify_bytes(&pk, &digest, &[], &bad), "flip at byte {byte} bit {bit}");
        let bad_sig = decode_signature(&bad).unwrap();
        assert!(!verify(&kp.verifying_key, &digest, &[], &bad_sig));
    }
}

#[test]
fn context_binds_signature() {
    let seed = seed_of(0x21);
    let kp = keygen_from_seed(&seed);
    let sig = sign(&seed, b"payload");
    assert!(verify(&kp.verifying_key, b"payload", &[], &sig));
    assert!(!verify(&kp.verifying_key, b"payload", b"ctx", &sig));
    assert!(!verify(&kp.verifying_key, b"payload", &[0u8; 256], &sig));
}

#[test]
fn fixed_seed_scenario() {
    let seed = seed_of(0xAB);
    let message = [0xABu8; 32];
    let kp = keygen_from_seed(&seed);
    let sig = sign(&seed, &message);
    assert!(verify(&kp.verifying_key, &message, &[], &sig));
    let other = keygen_from_seed(&seed_of(0xCD));
    assert!(!verify(&other.verifying_key, &message, &[], &sig));
}

#[test]
fn verify_bytes_fails_closed_on_lengths() {
    let seed = seed_of(1);
    let kp = keygen_from_seed(&seed);
    let sig = sign(&seed, &[2u8; 32]);
    let pk = kp.verifying_key.as_bytes();
    assert!(verify_bytes(pk, &[2u8; 32], &[], sig.as_bytes()));
    assert!(!verify_bytes(&pk[..1951], &[2u8; 32], &[], sig.as_bytes()));
    assert!(!verify_bytes(pk, &[2u8; 32], &[], &sig.as_bytes()[..3308]));
}

#[test]
fn command_round_trip() {
    let files = keygen_command(&seed_of(0x5c));
    assert_eq!(files.verifying_key.len(), 1952);
    assert_eq!(files.seed, vec![0x5c; 32]);
    let hash = format!("0x{}", "12".repeat(32));
    let sig = sign_command(&files.seed, &hash).unwrap();
    assert_eq!(sig.len(), 3309);
    let verdict = verify_command(&files.verifying_key, &hash, &sig).unwrap();
    assert_eq!(verdict, Verdict::Valid);
    assert_eq!(verdict.exit_code(), 0);
    assert_eq!(verdict.label(), "Valid");
    let other_hash = "13".repeat(32);
    assert_eq!(verify_command(&files.verifying_key, &other_hash, &sig).unwrap(), Verdict::Invalid);
}

#[test]
fn all_zero_signature_is_invalid_with_exit_code_one() {
    let files = keygen_command(&seed_of(0x01));
    let hash = "ab".repeat(32);
    let verdict = verify_command(&files.verifying_key, &hash, &vec![0u8; 3309]).unwrap();
    assert_eq!(verdict, Verdict::Invalid);
    assert_eq!(verdict.label(), "Invalid");
    assert_eq!(verdict.exit_code(), 1);
}

#[test]
fn sign_command_errors() {
    let hash = "ab".repeat(32);
    assert_eq!(
        sign_command(&[0u8; 31], &hash).unwrap_err(),
        CommandError::Seed(CodecError::WrongLength { expected: 32, found: 31 })
    );
    assert_eq!(
        sign_command(&[0u8; 32], "0xabcd").unwrap_err(),
        CommandError::Digest(HexError::WrongLength { expected: 32, found: 2 })
    );
    assert_eq!(
        sign_command(&[0u8; 32], "xyz1").unwrap_err(),
        CommandError::Digest(HexError::InvalidDigit)
    );
}

#[test]
fn verify_command_errors_in_order() {
    let files = keygen_command(&seed_of(0x02));
    let hash = "ab".repeat(32);
    assert_eq!(
        verify_command(&files.verifying_key[..100], "zz", &[]).unwrap_err(),
        CommandError::VerifyingKey(CodecError::WrongLength { expected: 1952, found: 100 })
    );
    assert_eq!(
        verify_command(&files.verifying_key, "abc", &[]).unwrap_err(),
        CommandError::Digest(HexError::OddLength)
    );
    assert_eq!(
        verify_command(&files.verifying_key, &hash, &[0u8; 3308]).unwrap_err(),
        CommandError::Signature(CodecError::WrongLength { expected: 3309, found: 3308 })
    );
}

#[test]
fn sample_is_hex_of_key_message_and_signature() {
    let seed = seed_of(0x77);
    let sample = generate_sample(&seed);
    let kp = keygen_from_seed(&seed);
    assert_eq!(sample.msg_hex, "ab".repeat(32));
    assert_eq!(sample_message(), vec![0xABu8; 32]);
    assert_eq!(sample.pk_hex, hex::encode(kp.verifying_key.as_bytes()));
    assert_eq!(sample.pk_hex.len(), 2 * 1952);
    assert_eq!(sample.sig_hex.len(), 2 * 3309);
    let sig = hex::decode(&sample.sig_hex).unwrap();
    assert!(verify_bytes(kp.verifying_key.as_bytes(), &[0xAB; 32], &[], &sig));
}
