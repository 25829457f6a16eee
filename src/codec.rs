use vstd::prelude::*;

verus! {

/// Length in bytes of an encoded verifying key.
pub const VERIFYING_KEY_LEN: usize = 1952;

/// Length in bytes of a key-generation seed.
pub const SEED_LEN: usize = 32;

/// Length in bytes of an encoded signature.
pub const SIGNATURE_LEN: usize = 3309;

/// Length in bytes of a message digest handled by the key lifecycle commands.
pub const DIGEST_LEN: usize = 32;

/// Copies `bytes[from..]` into a fresh vector.
pub fn copy_tail(bytes: &[u8], from: usize) -> (r: Vec<u8>)
    requires
        from <= bytes@.len(),
    ensures
        r@ == bytes@.subrange(from as int, bytes@.len() as int),
        from == 0 ==> r@ == bytes@,
{
    let mut r: Vec<u8> = Vec::new();
    let mut i: usize = from;
    while i < bytes.len()
        invariant
            from <= i <= bytes@.len(),
            r@ == bytes@.subrange(from as int, i as int),
        decreases bytes@.len() - i,
    {
        r.push(bytes[i]);
        i = i + 1;
    }
    assert(bytes@.subrange(0, bytes@.len() as int) =~= bytes@);
    r
}

/// A byte string that has the wrong length for what it should encode.
#[derive(Clone, Copy, Debug, PartialEq, Eq, Structural)]
pub enum CodecError {
    WrongLength { expected: usize, found: usize },
}

/// What decoding `bytes` as a value of exactly `n` bytes gives.
pub open spec fn decoded_fixed(bytes: Seq<u8>, n: usize) -> Result<Seq<u8>, CodecError> {
    if bytes.len() == n {
        Ok(bytes)
    } else {
        Err(CodecError::WrongLength { expected: n, found: bytes.len() as usize })
    }
}

/// 32 bytes of entropy from which a key pair is derived.
#[derive(Clone, Debug)]
pub struct Seed {
    bytes: Vec<u8>,
}

/// An encoded ML-DSA-65 verifying key.
#[derive(Clone, Debug)]
pub struct VerifyingKey {
    bytes: Vec<u8>,
}

/// An encoded ML-DSA-65 signature.
#[derive(Clone, Debug)]
pub struct Signature {
    bytes: Vec<u8>,
}

impl View for Seed {
    type V = Seq<u8>;

    closed spec fn view(&self) -> Seq<u8> {
        self.bytes@
    }
}

impl View for VerifyingKey {
    type V = Seq<u8>;

    closed spec fn view(&self) -> Seq<u8> {
        self.bytes@
    }
}

impl View for Signature {
    type V = Seq<u8>;

    closed spec fn view(&self) -> Seq<u8> {
        self.bytes@
    }
}

impl Seed {
    pub open spec fn wf(&self) -> bool {
        self@.len() == SEED_LEN
    }

    /// The seed's bytes.
    pub fn as_bytes(&self) -> (r: &[u8])
        ensures
            r@ == self@,
    {
        self.bytes.as_slice()
    }
}

impl VerifyingKey {
    pub open spec fn wf(&self) -> bool {
        self@.len() == VERIFYING_KEY_LEN
    }

    /// Takes ownership of a 1952-byte encoding.
    pub fn from_vec(bytes: Vec<u8>) -> (r: VerifyingKey)
        requires
            bytes@.len() == VERIFYING_KEY_LEN,
        ensures
            r@ == bytes@,
            r.wf(),
    {
        VerifyingKey { bytes }
    }

    /// The key's encoding.
    pub fn as_bytes(&self) -> (r: &[u8])
        ensures
            r@ == self@,
    {
        self.bytes.as_slice()
    }
}

impl Signature {
    pub open spec fn wf(&self) -> bool {
        self@.len() == SIGNATURE_LEN
    }

    /// Takes ownership of a 3309-byte encoding.
    pub fn from_vec(bytes: Vec<u8>) -> (r: Signature)
        requires
            bytes@.len() == SIGNATURE_LEN,
        ensures
            r@ == bytes@,
            r.wf(),
    {
        Signature { bytes }
    }

    /// The signature's encoding.
    pub fn as_bytes(&self) -> (r: &[u8])
        ensures
            r@ == self@,
    {
        self.bytes.as_slice()
    }
}

/// Decodes a seed; exactly 32 bytes are required.
pub fn decode_seed(bytes: &[u8]) -> (r: Result<Seed, CodecError>)
    ensures
        match r {
            Ok(s) => decoded_fixed(bytes@, SEED_LEN) == Ok::<Seq<u8>, CodecError>(s@) && s.wf(),
            Err(e) => decoded_fixed(bytes@, SEED_LEN) == Err::<Seq<u8>, CodecError>(e),
        },
{
    if bytes.len() == SEED_LEN {
        Ok(Seed { bytes: copy_tail(bytes, 0) })
    } else {
        Err(CodecError::WrongLength { expected: SEED_LEN, found: bytes.len() })
    }
}

/// Decodes a verifying key; exactly 1952 bytes are required.
pub fn decode_verifying_key(bytes: &[u8]) -> (r: Result<VerifyingKey, CodecError>)
    ensures
        match r {
            Ok(k) => decoded_fixed(bytes@, VERIFYING_KEY_LEN) == Ok::<Seq<u8>, CodecError>(k@)
                && k.wf(),
            Err(e) => decoded_fixed(bytes@, VERIFYING_KEY_LEN) == Err::<Seq<u8>, CodecError>(e),
        },
{
    if bytes.len() == VERIFYING_KEY_LEN {
        Ok(VerifyingKey { bytes: copy_tail(bytes, 0) })
    } else {
        Err(CodecError::WrongLength { expected: VERIFYING_KEY_LEN, found: bytes.len() })
    }
}

/// Decodes a signature; exactly 3309 bytes are required.
pub fn decode_signature(bytes: &[u8]) -> (r: Result<Signature, CodecError>)
    ensures
        match r {
            Ok(s) => decoded_fixed(bytes@, SIGNATURE_LEN) == Ok::<Seq<u8>, CodecError>(s@)
                && s.wf(),
            Err(e) => decoded_fixed(bytes@, SIGNATURE_LEN) == Err::<Seq<u8>, CodecError>(e),
        },
{
    if bytes.len() == SIGNATURE_LEN {
        Ok(Signature { bytes: copy_tail(bytes, 0) })
    } else {
        Err(CodecError::WrongLength { expected: SIGNATURE_LEN, found: bytes.len() })
    }
}

/// The 32-byte encoding of a seed.
pub fn encode_seed(seed: &Seed) -> (r: Vec<u8>)
    requires
        seed.wf(),
    ensures
        r@ == seed@,
        r@.len() == SEED_LEN,
{
    copy_tail(seed.as_bytes(), 0)
}

/// The 1952-byte encoding of a verifying key.
pub fn encode_verifying_key(key: &VerifyingKey) -> (r: Vec<u8>)
    requires
        key.wf(),
    ensures
        r@ == key@,
        r@.len() == VERIFYING_KEY_LEN,
{
    copy_tail(key.as_bytes(), 0)
}

/// The 3309-byte encoding of a signature.
pub fn encode_signature(sig: &Signature) -> (r: Vec<u8>)
    requires
        sig.wf(),
    ensures
        r@ == sig@,
        r@.len() == SIGNATURE_LEN,
{
    copy_tail(sig.as_bytes(), 0)
}

/// Decoding the encoding of a well-formed verifying key gives that key back.
pub proof fn lemma_verifying_key_round_trip(key: VerifyingKey)
    requires
        key.wf(),
    ensures
        decoded_fixed(key@, VERIFYING_KEY_LEN) == Ok::<Seq<u8>, CodecError>(key@),
{
}

/// Decoding the encoding of a well-formed signature gives that signature back.
pub proof fn lemma_signature_round_trip(sig: Signature)
    requires
        sig.wf(),
    ensures
        decoded_fixed(sig@, SIGNATURE_LEN) == Ok::<Seq<u8>, CodecError>(sig@),
{
}

/// A buffer one byte short of, or one byte over, the verifying-key length is
/// rejected with a length error that reports what was found.
pub proof fn lemma_verifying_key_length_enforced(bytes: Seq<u8>)
    requires
        bytes.len() == VERIFYING_KEY_LEN - 1 || bytes.len() == VERIFYING_KEY_LEN + 1,
    ensures
        decoded_fixed(bytes, VERIFYING_KEY_LEN) == Err::<Seq<u8>, CodecError>(
            CodecError::WrongLength { expected: VERIFYING_KEY_LEN, found: bytes.len() as usize },
        ),
{
}

} // verus!
