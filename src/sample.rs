use vstd::prelude::*;

use crate::codec::{Seed, DIGEST_LEN};
use crate::hex_text::{encode_hex, lower_hex_of};
use crate::mldsa::{keygen_from_seed, public_key_of, sign, signature_of};

verus! {

/// The fixed message of a sample: 32 bytes of 0xAB.
pub open spec fn sample_message_spec() -> Seq<u8> {
    Seq::new(DIGEST_LEN as nat, |i: int| 0xABu8)
}

/// The fixed 32-byte message that samples sign.
pub fn sample_message() -> (r: Vec<u8>)
    ensures
        r@ == sample_message_spec(),
{
    let mut r: Vec<u8> = Vec::new();
    let mut i: usize = 0;
    while i < DIGEST_LEN
        invariant
            i <= DIGEST_LEN,
            r@ =~= Seq::new(i as nat, |k: int| 0xABu8),
        decreases DIGEST_LEN - i,
    {
        r.push(0xAB);
        i = i + 1;
    }
    r
}

/// A sample for fixtures: the verifying key, the message and its signature,
/// each as lower-case hex without a prefix.
#[derive(Debug)]
pub struct Sample {
    pub pk_hex: String,
    pub msg_hex: String,
    pub sig_hex: String,
}

/// Builds the sample of a key pair derived from `seed`.
pub fn generate_sample(seed: &Seed) -> (r: Sample)
    requires
        seed.wf(),
    ensures
        r.pk_hex@ == lower_hex_of(public_key_of(seed@)),
        r.msg_hex@ == lower_hex_of(sample_message_spec()),
        r.sig_hex@ == lower_hex_of(signature_of(seed@, sample_message_spec())),
{
    let kp = keygen_from_seed(seed);
    let msg = sample_message();
    let sig = sign(seed, msg.as_slice());
    Sample {
        pk_hex: encode_hex(kp.verifying_key.as_bytes()),
        msg_hex: encode_hex(msg.as_slice()),
        sig_hex: encode_hex(sig.as_bytes()),
    }
}

} // verus!
