use pq_sigkit::codec::{
    decode_seed, decode_signature, decode_verifying_key, encode_seed, encode_signature,
    encode_verifying_key, CodecError, SEED_LEN, SIGNATURE_LEN, VERIFYING_KEY_LEN,
};
use pq_sigkit::hex_text::{decode_hex, decode_hex_exact, encode_hex, HexError};

#[test]
fn verifying_key_one_byte_short_is_rejected() {
    let r = decode_verifying_key(&vec![7u8; 1951]);
    assert_eq!(r.unwrap_err(), CodecError::WrongLength { expected: 1952, found: 1951 });
}

#[test]
fn verifying_key_one_byte_over_is_rejected() {
    let r = decode_verifying_key(&vec![7u8; 1953]);
    assert_eq!(r.unwrap_err(), CodecError::WrongLength { expected: 1952, found: 1953 });
}

#[test]
fn verifying_key_round_trip() {
    let bytes: Vec<u8> = (0..VERIFYING_KEY_LEN).map(|i| (i % 251) as u8).collect();
    let key = decode_verifying_key(&bytes).unwrap();
    let encoded = encode_verifying_key(&key);
    assert_eq!(encoded, bytes);
    let again = decode_verifying_key(&encoded).unwrap();
    assert_eq!(encode_verifying_key(&again), bytes);
}

#[test]
fn signature_round_trip_and_lengths() {
    let bytes: Vec<u8> = (0..SIGNATURE_LEN).map(|i| (i % 13) as u8).collect();
    let sig = decode_signature(&bytes).unwrap();
    assert_eq!(encode_signature(&sig), bytes);
    assert_eq!(
        decode_signature(&bytes[..3308]).unwrap_err(),
        CodecError::WrongLength { expected: 3309, found: 3308 }
    );
    assert_eq!(
        decode_signature(&vec![0u8; 3310]).unwrap_err(),
        CodecError::WrongLength { expected: 3309, found: 3310 }
    );
}

#[test]
fn seed_lengths() {
    let seed = decode_seed(&[0x11u8; 32]).unwrap();
    assert_eq!(encode_seed(&seed), vec![0x11u8; SEED_LEN]);
    assert_eq!(
        decode_seed(&[0u8; 31]).unwrap_err(),
        CodecError::WrongLength { expected: 32, found: 31 }
    );
    assert_eq!(
        decode_seed(&[]).unwrap_err(),
        CodecError::WrongLength { expected: 32, found: 0 }
    );
}

#[test]
fn hex_decodes_both_cases() {
    assert_eq!(decode_hex(b"00ff7Fa0").unwrap(), vec![0x00, 0xff, 0x7f, 0xa0]);
    assert_eq!(decode_hex(b"").unwrap(), Vec::<u8>::new());
}

#[test]
fn hex_errors() {
    assert_eq!(decode_hex(b"abc").unwrap_err(), HexError::OddLength);
    assert_eq!(decode_hex(b"zz").unwrap_err(), HexError::InvalidDigit);
    assert_eq!(decode_hex(b"0x12").unwrap_err(), HexError::InvalidDigit);
}

#[test]
fn hex_exact_strips_prefix() {
    let text = format!("0x{}", "ab".repeat(32));
    assert_eq!(decode_hex_exact(&text, 32).unwrap(), vec![0xab; 32]);
    assert_eq!(decode_hex_exact(&"ab".repeat(32), 32).unwrap(), vec![0xab; 32]);
}

#[test]
fn hex_exact_errors() {
    assert_eq!(
        decode_hex_exact("0xabcd", 32).unwrap_err(),
        HexError::WrongLength { expected: 32, found: 2 }
    );
    assert_eq!(decode_hex_exact("0xabc", 32).unwrap_err(), HexError::OddLength);
    assert_eq!(decode_hex_exact("0Xab", 1).unwrap_err(), HexError::InvalidDigit);
    assert_eq!(decode_hex_exact("", 32).unwrap_err(), HexError::WrongLength { expected: 32, found: 0 });
}

#[test]
fn hex_encodes_lower_case() {
    assert_eq!(encode_hex(&[0xAB, 0x01, 0xF0]), "ab01f0");
    assert_eq!(encode_hex(&[]), "");
}
