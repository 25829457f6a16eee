use vstd::prelude::*;
use vstd::string::StringSliceAdditionalSpecFns;

verus! {

/// An ASCII hex digit, in either case.
pub open spec fn is_hex_digit(c: u8) -> bool {
    (0x30 <= c && c <= 0x39) || (0x41 <= c && c <= 0x46) || (0x61 <= c && c <= 0x66)
}

/// The value of a hex digit.
pub open spec fn hex_digit_value(c: u8) -> int {
    if 0x30 <= c && c <= 0x39 {
        c - 0x30
    } else if 0x41 <= c && c <= 0x46 {
        c - 0x41 + 10
    } else {
        c - 0x61 + 10
    }
}

/// Text made of an even number of hex digits.
pub open spec fn is_hex_text(t: Seq<u8>) -> bool {
    t.len() % 2 == 0 && forall|i: int| 0 <= i < t.len() ==> #[trigger] is_hex_digit(t[i])
}

/// The bytes that hex text spells, high nibble first.
pub open spec fn hex_bytes(t: Seq<u8>) -> Seq<u8> {
    Seq::new(
        t.len() / 2,
        |i: int| (hex_digit_value(t[2 * i]) * 16 + hex_digit_value(t[2 * i + 1])) as u8,
    )
}

/// The lower-case hex digit of a value below 16.
pub open spec fn lower_hex_char(v: int) -> char {
    if v < 10 {
        (v + 0x30) as char
    } else {
        (v - 10 + 0x61) as char
    }
}

/// Lower-case hex text of `b`: two digits per byte, high nibble first.
pub open spec fn lower_hex_of(b: Seq<u8>) -> Seq<char> {
    Seq::new(
        2 * b.len(),
        |i: int|
            if i % 2 == 0 {
                lower_hex_char(b[i / 2] as int / 16)
            } else {
                lower_hex_char(b[i / 2] as int % 16)
            },
    )
}

/// `t` without a leading `0x`, if it has one.
pub open spec fn without_hex_prefix(t: Seq<u8>) -> Seq<u8> {
    if t.len() >= 2 && t[0] == 0x30 && t[1] == 0x78 {
        t.subrange(2, t.len() as int)
    } else {
        t
    }
}

/// Why hex text was rejected.
#[derive(Clone, Copy, Debug, PartialEq, Eq, Structural)]
pub enum HexError {
    /// The number of digits is odd.
    OddLength,
    /// A character is not a hex digit.
    InvalidDigit,
    /// The text decodes to a number of bytes other than the one required.
    WrongLength { expected: usize, found: usize },
}

/// What hex text decodes to, or why it does not.
pub open spec fn decoded_hex(t: Seq<u8>) -> Result<Seq<u8>, HexError> {
    if t.len() % 2 != 0 {
        Err(HexError::OddLength)
    } else if !is_hex_text(t) {
        Err(HexError::InvalidDigit)
    } else {
        Ok(hex_bytes(t))
    }
}

/// What hex text with an optional `0x` prefix decodes to when exactly
/// `expected` bytes are required.
pub open spec fn decoded_hex_exact(t: Seq<u8>, expected: usize) -> Result<Seq<u8>, HexError> {
    let body = without_hex_prefix(t);
    match decoded_hex(body) {
        Ok(b) => if b.len() == expected {
            Ok(b)
        } else {
            Err(HexError::WrongLength { expected, found: b.len() as usize })
        },
        Err(e) => Err(e),
    }
}

/// Views a byte-vector result as a byte-sequence result.
pub open spec fn bytes_result(r: Result<Vec<u8>, HexError>) -> Result<Seq<u8>, HexError> {
    match r {
        Ok(v) => Ok(v@),
        Err(e) => Err(e),
    }
}

#[verifier::external_type_specification]
#[verifier::external_body]
pub struct ExFromHexError(hex::FromHexError);

/// Relies on hex::decode: an odd length or a byte that is not a hex digit
/// (either case) is an error; otherwise each pair of digits gives one byte,
/// high nibble first.
#[verifier::external_body]
fn hex_decode(text: &[u8]) -> (r: Result<Vec<u8>, hex::FromHexError>)
    ensures
        match r {
            Ok(v) => is_hex_text(text@) && v@ == hex_bytes(text@),
            Err(_) => !is_hex_text(text@),
        },
{
    hex::decode(text)
}

/// Relies on hex::encode: two lower-case digits per byte, high nibble first.
#[verifier::external_body]
fn hex_encode(bytes: &[u8]) -> (r: String)
    ensures
        r@ == lower_hex_of(bytes@),
{
    hex::encode(bytes)
}

/// Lower-case hex text of `bytes`, without a prefix.
pub fn encode_hex(bytes: &[u8]) -> (r: String)
    ensures
        r@ == lower_hex_of(bytes@),
        r@.len() == 2 * bytes@.len(),
{
    hex_encode(bytes)
}

/// Decodes hex text, given as its bytes, of any even length; no prefix is
/// accepted.
pub fn decode_hex(t: &[u8]) -> (r: Result<Vec<u8>, HexError>)
    ensures
        bytes_result(r) == decoded_hex(t@),
{
    if t.len() % 2 != 0 {
        return Err(HexError::OddLength);
    }
    match hex_decode(t) {
        Ok(v) => Ok(v),
        Err(_) => Err(HexError::InvalidDigit),
    }
}

/// Decodes hex text with an optional `0x` prefix that must spell exactly
/// `expected` bytes.
pub fn decode_hex_exact(text: &str, expected: usize) -> (r: Result<Vec<u8>, HexError>)
    ensures
        bytes_result(r) == decoded_hex_exact(text.spec_bytes(), expected),
{
    let t = text.as_bytes();
    let body: Vec<u8> = if t.len() >= 2 && t[0] == 0x30 && t[1] == 0x78 {
        crate::codec::copy_tail(t, 2)
    } else {
        crate::codec::copy_tail(t, 0)
    };
    assert(body@ == without_hex_prefix(t@)) by {
        if !(t@.len() >= 2 && t@[0] == 0x30 && t@[1] == 0x78) {
            assert(t@.subrange(0, t@.len() as int) =~= t@);
        }
    }
    if body.len() % 2 != 0 {
        return Err(HexError::OddLength);
    }
    match hex_decode(body.as_slice()) {
        Ok(v) => {
            if v.len() == expected {
                Ok(v)
            } else {
                Err(HexError::WrongLength { expected, found: v.len() })
            }
        },
        Err(_) => Err(HexError::InvalidDigit),
    }
}

} // verus!
