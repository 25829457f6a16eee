use vstd::prelude::*;

use alloy_primitives::{Address, B256, U256};
use alloy_sol_types::SolValue;

verus! {

/// The Keccak-256 digest of a byte string.
pub uninterp spec fn keccak256_of(data: Seq<u8>) -> Seq<u8>;

/// The 32-byte ABI word of an address: twelve zero bytes, then the address.
pub open spec fn address_word(a: Seq<u8>) -> Seq<u8> {
    Seq::new(12, |i: int| 0u8) + a
}

/// Relies on alloy_primitives::keccak256: the 32-byte Keccak-256 digest, a
/// function of the input alone.
#[verifier::external_body]
fn keccak256(data: &[u8]) -> (r: [u8; 32])
    ensures
        r@ == keccak256_of(data@),
{
    alloy_primitives::keccak256(data).0
}

/// Relies on SolValue::abi_encode of an (address, uint256, bytes32, bytes32,
/// bytes32, uint256, bytes32, bytes32) tuple: every member is static, so the
/// encoding is one 32-byte word per member, in order; an address is padded on
/// the left with zeros and a uint256 is big-endian.
#[verifier::external_body]
fn abi_encode_packed_fields(
    sender: [u8; 20],
    nonce: [u8; 32],
    init_code_hash: [u8; 32],
    call_data_hash: [u8; 32],
    account_gas_limits: [u8; 32],
    pre_verification_gas: [u8; 32],
    gas_fees: [u8; 32],
    paymaster_and_data_hash: [u8; 32],
) -> (r: Vec<u8>)
    ensures
        r@ == address_word(sender@) + nonce@ + init_code_hash@ + call_data_hash@
            + account_gas_limits@ + pre_verification_gas@ + gas_fees@ + paymaster_and_data_hash@,
{
    (
        Address::from(sender),
        U256::from_be_bytes(nonce),
        B256::from(init_code_hash),
        B256::from(call_data_hash),
        B256::from(account_gas_limits),
        U256::from_be_bytes(pre_verification_gas),
        B256::from(gas_fees),
        B256::from(paymaster_and_data_hash),
    ).abi_encode()
}

/// Relies on SolValue::abi_encode of a (bytes32, address, uint256) tuple: one
/// 32-byte word per member, in order, as for the packed fields.
#[verifier::external_body]
fn abi_encode_hash_context(packed_hash: [u8; 32], entry_point: [u8; 20], chain_id: [u8; 32]) -> (r:
    Vec<u8>)
    ensures
        r@ == packed_hash@ + address_word(entry_point@) + chain_id@,
{
    (B256::from(packed_hash), Address::from(entry_point), U256::from_be_bytes(chain_id)).abi_encode()
}

/// An ERC-4337 v0.7 packed user operation. Addresses are 20 bytes; `uint256`
/// fields are 32 bytes, big-endian; `bytes32` fields are 32 bytes.
#[derive(Clone, Debug)]
pub struct PackedUserOperation {
    pub sender: [u8; 20],
    pub nonce: [u8; 32],
    pub init_code: Vec<u8>,
    pub call_data: Vec<u8>,
    pub account_gas_limits: [u8; 32],
    pub pre_verification_gas: [u8; 32],
    pub gas_fees: [u8; 32],
    pub paymaster_and_data: Vec<u8>,
    pub signature: Vec<u8>,
}

/// The packed form of an operation: every field but the signature, with the
/// variable-length fields replaced by their hashes, as ABI words.
pub open spec fn packed_user_op(op: PackedUserOperation) -> Seq<u8> {
    address_word(op.sender@) + op.nonce@ + keccak256_of(op.init_code@) + keccak256_of(
        op.call_data@,
    ) + op.account_gas_limits@ + op.pre_verification_gas@ + op.gas_fees@ + keccak256_of(
        op.paymaster_and_data@,
    )
}

/// The hash that identifies an operation to an entry point on a chain.
pub open spec fn user_op_hash(op: PackedUserOperation, entry_point: Seq<u8>, chain_id: Seq<u8>) -> Seq<u8> {
    keccak256_of(keccak256_of(packed_user_op(op)) + address_word(entry_point) + chain_id)
}

/// Computes the user-operation hash as an EntryPoint v0.7 does: the packed
/// operation is hashed, and that hash is hashed again together with the entry
/// point and the chain id (32 bytes, big-endian).
pub fn compute_user_op_hash(user_op: &PackedUserOperation, entry_point: [u8; 20], chain_id: [u8; 32]) -> (r: [u8; 32])
    ensures
        r@ == user_op_hash(*user_op, entry_point@, chain_id@),
{
    let init_code_hash = keccak256(user_op.init_code.as_slice());
    let call_data_hash = keccak256(user_op.call_data.as_slice());
    let paymaster_hash = keccak256(user_op.paymaster_and_data.as_slice());
    let packed = abi_encode_packed_fields(
        user_op.sender,
        user_op.nonce,
        init_code_hash,
        call_data_hash,
        user_op.account_gas_limits,
        user_op.pre_verification_gas,
        user_op.gas_fees,
        paymaster_hash,
    );
    let packed_hash = keccak256(packed.as_slice());
    let outer = abi_encode_hash_context(packed_hash, entry_point, chain_id);
    keccak256(outer.as_slice())
}

} // verus!
