//! Fixed-length ML-DSA-65 key material, the keygen / sign / verify commands
//! over 32-byte digests, replay of conformance vectors, fixture samples, and
//! the ERC-4337 user-operation hash that signed digests are taken from.
use vstd::prelude::*;

pub mod codec;
pub mod conformance;
pub mod hex_text;
pub mod lifecycle;
pub mod mldsa;
pub mod sample;
pub mod userop;

verus! {

} // verus!
