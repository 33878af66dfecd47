use zk_bridge::mint_ledger::{
    BridgeError, CommitmentStatus, MintEvent, PolkadotBridgeComplete, ProofVerified,
};
use zk_bridge::proof_gate::{hash_recipient, verify_zk_proof};

const ALICE: [u8; 32] = [0x01; 32];
const BOB: [u8; 32] = [0x02; 32];
const C: [u8; 32] = [0xC1; 32];
const N: [u8; 32] = [0xA7; 32];

fn proof_blob() -> Vec<u8> {
    let mut p = vec![0u8; 32];
    p[0] = 1;
    p
}

fn funded() -> PolkadotBridgeComplete {
    let mut b = PolkadotBridgeComplete::new(ALICE, 1000, 30);
    assert_eq!(b.verify_and_mint(proof_blob(), C, N, BOB, 10_000, 0, 5), Ok(()));
    b
}

#[test]
fn test_new() {
    let contract = PolkadotBridgeComplete::new(ALICE, 1000, 30);
    assert_eq!(contract.get_total_minted(), 0);
    assert_eq!(contract.get_total_burned(), 0);
}

#[test]
fn test_balance() {
    let contract = PolkadotBridgeComplete::new(ALICE, 1000, 30);
    let account = [0x01; 32];
    assert_eq!(contract.balance_of(account), 0);
}

#[test]
fn happy_path_mint() {
    let mut b = PolkadotBridgeComplete::new(ALICE, 1000, 30);
    let r = b.verify_and_mint(vec![0u8; 32], C, N, BOB, 10_000, 0, 77);
    assert_eq!(r, Ok(()));
    assert_eq!(b.balance_of(BOB), 9970);
    assert!(b.is_nullifier_used(N));
    assert_eq!(b.get_total_minted(), 9970);
    let rec = b.get_commitment(C).unwrap();
    assert_eq!(rec.amount, 9970);
    assert_eq!(rec.status, CommitmentStatus::Minted);
    assert_eq!(rec.timestamp, 77);
    assert_eq!(rec.source_chain, 0);
    assert_eq!(b.events().len(), 2);
}

#[test]
fn fee_thirty_bps() {
    let b = PolkadotBridgeComplete::new(ALICE, 1000, 30);
    assert_eq!(b.calculate_fee(10_000), Some(30));
    assert_eq!(b.calculate_fee(999), Some(2));
}

#[test]
fn fee_zero_bps_mints_full_amount() {
    let mut b = PolkadotBridgeComplete::new(ALICE, 1000, 0);
    assert_eq!(b.calculate_fee(10_000), Some(0));
    assert_eq!(b.verify_and_mint(proof_blob(), C, N, BOB, 12_345, 1, 0), Ok(()));
    assert_eq!(b.balance_of(BOB), 12_345);
    assert_eq!(b.get_total_minted(), 12_345);
}

#[test]
fn fee_multiplication_overflow() {
    let mut b = PolkadotBridgeComplete::new(ALICE, 0, 30);
    assert_eq!(b.calculate_fee(u128::MAX), None);
    let r = b.verify_and_mint(proof_blob(), C, N, BOB, u128::MAX, 0, 0);
    assert_eq!(r, Err(BridgeError::ArithmeticOverflow));
    assert!(!b.is_nullifier_used(N));
}

#[test]
fn fee_above_amount_overflows() {
    let mut b = PolkadotBridgeComplete::new(ALICE, 0, 20_000);
    let r = b.verify_and_mint(proof_blob(), C, N, BOB, 10_000, 0, 0);
    assert_eq!(r, Err(BridgeError::ArithmeticOverflow));
    assert_eq!(b.get_total_minted(), 0);
}

#[test]
fn proof_with_zero_nullifier_rejected() {
    let mut b = PolkadotBridgeComplete::new(ALICE, 1000, 30);
    let zero = [0u8; 32];
    assert!(!verify_zk_proof(&proof_blob(), &C, &zero, &[5u8; 32]));
    let r = b.verify_and_mint(proof_blob(), C, zero, BOB, 10_000, 0, 0);
    assert_eq!(r, Err(BridgeError::InvalidProof));
    assert_eq!(b.balance_of(BOB), 0);
    assert_eq!(b.get_total_minted(), 0);
    assert!(!b.is_nullifier_used(zero));
    assert_eq!(
        b.events(),
        &vec![MintEvent::ProofVerified(ProofVerified {
            commitment_hash: C,
            nullifier_hash: zero,
            verified: false,
        })]
    );
}

#[test]
fn short_proof_rejected() {
    let mut b = PolkadotBridgeComplete::new(ALICE, 1000, 30);
    assert!(!verify_zk_proof(&[1u8; 31], &C, &N, &[5u8; 32]));
    assert!(verify_zk_proof(&[1u8; 32], &C, &N, &[5u8; 32]));
    let r = b.verify_and_mint(vec![1u8; 31], C, N, BOB, 10_000, 0, 0);
    assert_eq!(r, Err(BridgeError::InvalidProof));
}

#[test]
fn zero_commitment_rejected() {
    assert!(!verify_zk_proof(&[1u8; 40], &[0u8; 32], &N, &[5u8; 32]));
    assert!(!verify_zk_proof(&[1u8; 40], &C, &N, &[0u8; 32]));
}

#[test]
fn recipient_hash_is_a_digest_of_the_account() {
    let h = hash_recipient(&BOB);
    assert_ne!(h, BOB);
    assert_ne!(h, [0u8; 32]);
    assert_eq!(h, hash_recipient(&BOB));
    assert_ne!(h, hash_recipient(&ALICE));
}

#[test]
fn second_mint_with_same_nullifier_fails() {
    let mut b = funded();
    let r = b.verify_and_mint(proof_blob(), [0xC2; 32], N, ALICE, 5000, 0, 9);
    assert_eq!(r, Err(BridgeError::NullifierUsed));
    assert_eq!(b.balance_of(BOB), 9970);
    assert_eq!(b.balance_of(ALICE), 0);
    assert_eq!(b.get_total_minted(), 9970);
    assert!(b.get_commitment([0xC2; 32]).is_none());
}

#[test]
fn amount_below_minimum() {
    let mut b = PolkadotBridgeComplete::new(ALICE, 1000, 30);
    let r = b.verify_and_mint(proof_blob(), C, N, BOB, 999, 0, 0);
    assert_eq!(r, Err(BridgeError::AmountTooLow));
    assert!(!b.is_nullifier_used(N));
}

#[test]
fn pause_blocks_mint_and_burn() {
    let mut b = funded();
    assert_eq!(b.set_paused(ALICE, true), Ok(()));
    assert!(b.is_paused());
    let events_before = b.events().len();
    assert_eq!(
        b.verify_and_mint(proof_blob(), [9; 32], [8; 32], BOB, 5000, 0, 0),
        Err(BridgeError::ContractPaused)
    );
    assert_eq!(b.burn_and_bridge(BOB, 100, [3; 32]), Err(BridgeError::ContractPaused));
    assert_eq!(b.balance_of(BOB), 9970);
    assert_eq!(b.get_total_burned(), 0);
    assert!(!b.is_nullifier_used([8; 32]));
    assert_eq!(b.events().len(), events_before);
    assert_eq!(b.set_paused(ALICE, false), Ok(()));
    assert_eq!(b.burn_and_bridge(BOB, 100, [3; 32]), Ok(()));
}

#[test]
fn burn_debits_and_counts() {
    let mut b = funded();
    assert_eq!(b.burn_and_bridge(BOB, 970, [3; 32]), Ok(()));
    assert_eq!(b.balance_of(BOB), 9000);
    assert_eq!(b.get_total_burned(), 970);
    assert_eq!(b.get_total_minted() - b.get_total_burned(), b.balance_of(BOB));
    assert_eq!(b.burn_and_bridge(BOB, 9001, [3; 32]), Err(BridgeError::InsufficientBalance));
    assert_eq!(b.balance_of(BOB), 9000);
}

#[test]
fn transfer_moves_balance() {
    let mut b = funded();
    assert_eq!(b.transfer(BOB, ALICE, 970), Ok(()));
    assert_eq!(b.balance_of(BOB), 9000);
    assert_eq!(b.balance_of(ALICE), 970);
    assert_eq!(b.transfer(ALICE, BOB, 971), Err(BridgeError::InsufficientBalance));
    assert_eq!(b.balance_of(ALICE) + b.balance_of(BOB), b.get_total_minted());
}

#[test]
fn transfer_to_self_keeps_balance() {
    let mut b = funded();
    assert_eq!(b.transfer(BOB, BOB, 500), Ok(()));
    assert_eq!(b.balance_of(BOB), 9970);
    assert_eq!(b.transfer(BOB, BOB, 9971), Err(BridgeError::InsufficientBalance));
}

#[test]
fn conservation_over_a_sequence() {
    let mut b = PolkadotBridgeComplete::new(ALICE, 1, 30);
    let carol = [0x03; 32];
    assert_eq!(b.verify_and_mint(proof_blob(), C, [1; 32], BOB, 10_000, 0, 0), Ok(()));
    assert_eq!(b.verify_and_mint(proof_blob(), [0xC2; 32], [2; 32], carol, 3_000, 0, 0), Ok(()));
    assert_eq!(b.transfer(BOB, carol, 1234), Ok(()));
    assert_eq!(b.burn_and_bridge(carol, 2000, [4; 32]), Ok(()));
    assert_eq!(b.transfer(carol, ALICE, 10), Ok(()));
    let sum = b.balance_of(ALICE) + b.balance_of(BOB) + b.balance_of(carol);
    assert_eq!(sum, b.get_total_minted() - b.get_total_burned());
}

#[test]
fn admin_calls_need_the_owner() {
    let mut b = PolkadotBridgeComplete::new(ALICE, 1000, 30);
    assert_eq!(b.update_config(BOB, Some(5), None), Err(BridgeError::Unauthorized));
    assert_eq!(b.set_paused(BOB, true), Err(BridgeError::Unauthorized));
    assert_eq!(b.transfer_ownership(BOB, BOB), Err(BridgeError::Unauthorized));
    assert_eq!(b.update_config(ALICE, None, Some(50)), Ok(()));
    assert_eq!(b.get_min_mint_amount(), 1000);
    assert_eq!(b.get_relayer_fee_bps(), 50);
    assert_eq!(b.update_config(ALICE, Some(7), None), Ok(()));
    assert_eq!(b.get_min_mint_amount(), 7);
    assert_eq!(b.get_relayer_fee_bps(), 50);
    assert_eq!(b.transfer_ownership(ALICE, BOB), Ok(()));
    assert_eq!(b.get_owner(), BOB);
    assert_eq!(b.set_paused(ALICE, true), Err(BridgeError::Unauthorized));
    assert_eq!(b.set_paused(BOB, true), Ok(()));
}
