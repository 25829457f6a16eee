use alloy_primitives::{keccak256, Address, B256, U256};
use alloy_sol_types::SolValue;
use pq_sigkit::userop::{compute_user_op_hash, PackedUserOperation};

fn address(last: u8) -> [u8; 20] {
    let mut a = [0u8; 20];
    a[19] = last;
    a
}

fn entry_point() -> [u8; 20] {
    let bytes = hex::decode("0000000071727De22E5E9d8BAf0edAc6f37da032").unwrap();
    bytes.try_into().unwrap()
}

fn empty_op() -> PackedUserOperation {
    PackedUserOperation {
        sender: address(1),
        nonce: [0u8; 32],
        init_code: vec![],
        call_data: vec![],
        account_gas_limits: [0u8; 32],
        pre_verification_gas: [0u8; 32],
        gas_fees: [0u8; 32],
        paymaster_and_data: vec![],
        signature: vec![],
    }
}

fn reference_hash(op: &PackedUserOperation, ep: [u8; 20], chain_id: [u8; 32]) -> [u8; 32] {
    let packed = (
        Address::from(op.sender),
        U256::from_be_bytes(op.nonce),
        keccak256(&op.init_code),
        keccak256(&op.call_data),
        B256::from(op.account_gas_limits),
        U256::from_be_bytes(op.pre_verification_gas),
        B256::from(op.gas_fees),
        keccak256(&op.paymaster_and_data),
    )
        .abi_encode();
    let packed_hash = keccak256(&packed);
    keccak256((packed_hash, Address::from(ep), U256::from_be_bytes(chain_id)).abi_encode()).0
}

#[test]
fn test_empty_userop_hash_is_deterministic() {
    let op = empty_op();
    let ep = entry_point();
    let chain_id = U256::from(412346).to_be_bytes::<32>();
    let hash1 = compute_user_op_hash(&op, ep, chain_id);
    let hash2 = compute_user_op_hash(&op, ep, chain_id);
    assert_eq!(hash1, hash2, "same inputs must produce same hash");
}

#[test]
fn userop_hash_matches_direct_computation() {
    let mut op = empty_op();
    op.nonce[31] = 5;
    op.init_code = vec![1, 2, 3];
    op.call_data = b"transfer".to_vec();
    op.gas_fees[0] = 0xff;
    op.pre_verification_gas[30] = 1;
    op.paymaster_and_data = vec![9; 52];
    op.signature = vec![7; 65];
    let ep = entry_point();
    let chain_id = U256::from(412346).to_be_bytes::<32>();
    let got = compute_user_op_hash(&op, ep, chain_id);
    assert_eq!(got, reference_hash(&op, ep, chain_id));
    assert_ne!(got, compute_user_op_hash(&empty_op(), ep, chain_id));
}

#[test]
fn userop_hash_ignores_signature_but_not_chain() {
    let mut op = empty_op();
    let ep = entry_point();
    let chain_a = U256::from(1u64).to_be_bytes::<32>();
    let chain_b = U256::from(2u64).to_be_bytes::<32>();
    let h = compute_user_op_hash(&op, ep, chain_a);
    op.signature = vec![1, 2, 3];
    assert_eq!(compute_user_op_hash(&op, ep, chain_a), h);
    assert_ne!(compute_user_op_hash(&op, ep, chain_b), h);
}

#[test]
fn empty_userop_on_chain_zero_matches_direct_computation() {
    let op = empty_op();
    let ep = entry_point();
    let c = [0u8; 32];
    assert_eq!(compute_user_op_hash(&op, ep, c), reference_hash(&op, ep, c));
}
