use zk_bridge::lock_ledger::{CommitmentStatus, LockError, LockEvent, StellarBridgeComplete};

const ADMIN: [u8; 32] = [0xAD; 32];
const TOKEN: [u8; 32] = [0x70; 32];
const SENDER: [u8; 32] = [0x05; 32];
const H: [u8; 32] = [0x11; 32];
const N: [u8; 32] = [0x22; 32];
const R: [u8; 32] = [0x33; 32];
const T0: u64 = 1_700_000_000;

fn ready() -> StellarBridgeComplete {
    let mut l = StellarBridgeComplete::new();
    assert_eq!(l.initialize(ADMIN, TOKEN, 1000, 10), Ok(()));
    l
}

fn locked() -> StellarBridgeComplete {
    let mut l = ready();
    assert_eq!(l.lock_funds(SENDER, 5000, H, 1, T0), Ok(H));
    l
}

#[test]
fn initialize_once() {
    let mut l = ready();
    assert_eq!(l.initialize(SENDER, TOKEN, 1, 1), Err(LockError::AlreadyInitialized));
    let cfg = l.get_config().unwrap();
    assert_eq!(cfg.admin, ADMIN);
    assert_eq!(cfg.min_lock_amount, 1000);
    assert_eq!(l.get_total_locked(), 0);
}

#[test]
fn lock_before_initialize_fails() {
    let mut l = StellarBridgeComplete::new();
    assert_eq!(l.lock_funds(SENDER, 5000, H, 1, T0), Err(LockError::NotInitialized));
    assert!(l.get_commitment(H).is_none());
}

#[test]
fn lock_records_commitment() {
    let l = locked();
    let c = l.get_commitment(H).unwrap();
    assert_eq!(c.sender, SENDER);
    assert_eq!(c.amount, 5000);
    assert_eq!(c.timestamp, T0);
    assert_eq!(c.destination_chain, 1);
    assert_eq!(c.status, CommitmentStatus::Locked);
    assert_eq!(l.get_total_locked(), 5000);
}

#[test]
fn lock_below_minimum() {
    let mut l = ready();
    assert_eq!(l.lock_funds(SENDER, 999, H, 1, T0), Err(LockError::AmountTooLow));
}

#[test]
fn reused_commitment_hash_rejected() {
    let mut l = locked();
    assert_eq!(l.lock_funds(ADMIN, 7000, H, 2, T0 + 5), Err(LockError::CommitmentExists));
    assert_eq!(l.get_total_locked(), 5000);
    assert_eq!(l.get_commitment(H).unwrap().sender, SENDER);
}

#[test]
fn paused_lock_rejected() {
    let mut l = ready();
    assert_eq!(l.set_paused(SENDER, true), Err(LockError::Unauthorized));
    assert_eq!(l.set_paused(ADMIN, true), Ok(()));
    assert_eq!(l.lock_funds(SENDER, 5000, H, 1, T0), Err(LockError::ContractPaused));
    assert!(l.get_commitment(H).is_none());
    assert_eq!(l.get_total_locked(), 0);
}

#[test]
fn unlock_with_valid_proof() {
    let mut l = locked();
    assert_eq!(l.verify_and_unlock(vec![7u8; 64], H, N, R), Ok(true));
    assert!(l.is_nullifier_used(N));
    assert_eq!(l.get_commitment(H).unwrap().status, CommitmentStatus::Claimed);
    let last = *l.events().last().unwrap();
    assert_eq!(
        last,
        LockEvent::UnlockApproved {
            commitment_hash: H,
            nullifier_hash: N,
            recipient_hash: R,
            amount: 5000,
            destination_chain: 1,
        }
    );
}

#[test]
fn unlock_twice_with_same_nullifier() {
    let mut l = locked();
    assert_eq!(l.lock_funds(SENDER, 2000, [0x12; 32], 1, T0), Ok([0x12; 32]));
    assert_eq!(l.verify_and_unlock(vec![7u8; 64], H, N, R), Ok(true));
    assert_eq!(l.verify_and_unlock(vec![7u8; 64], [0x12; 32], N, R), Err(LockError::NullifierUsed));
    assert_eq!(l.get_commitment([0x12; 32]).unwrap().status, CommitmentStatus::Locked);
}

#[test]
fn unlock_unknown_commitment() {
    let mut l = locked();
    assert_eq!(l.verify_and_unlock(vec![7u8; 64], [0x99; 32], N, R), Err(LockError::CommitmentNotFound));
}

#[test]
fn unlock_invalid_proof() {
    let mut l = locked();
    assert_eq!(l.verify_and_unlock(vec![7u8; 8], H, N, R), Err(LockError::InvalidProof));
    assert_eq!(l.verify_and_unlock(vec![7u8; 64], H, [0; 32], R), Err(LockError::InvalidProof));
    assert!(!l.is_nullifier_used(N));
    assert_eq!(l.get_commitment(H).unwrap().status, CommitmentStatus::Locked);
}

#[test]
fn refund_after_timeout() {
    let mut l = locked();
    assert_eq!(l.refund(SENDER, H, T0 + 100), Err(LockError::TimeoutNotReached));
    assert_eq!(l.get_commitment(H).unwrap().status, CommitmentStatus::Locked);
    assert_eq!(l.refund(ADMIN, H, T0 + 604_800), Err(LockError::Unauthorized));
    assert_eq!(l.refund(SENDER, H, T0 + 604_800), Ok(5000));
    assert_eq!(l.get_commitment(H).unwrap().status, CommitmentStatus::Refunded);
    assert_eq!(l.get_total_locked(), 0);
    assert_eq!(
        *l.events().last().unwrap(),
        LockEvent::Refunded { commitment_hash: H, sender: SENDER, amount: 5000 }
    );
}

#[test]
fn processed_commitment_is_final() {
    let mut l = locked();
    assert_eq!(l.refund(SENDER, H, T0 + 604_800), Ok(5000));
    assert_eq!(l.refund(SENDER, H, T0 + 704_800), Err(LockError::CommitmentAlreadyProcessed));
    assert_eq!(
        l.verify_and_unlock(vec![7u8; 64], H, N, R),
        Err(LockError::CommitmentAlreadyProcessed)
    );
    let mut m = locked();
    assert_eq!(m.verify_and_unlock(vec![7u8; 64], H, N, R), Ok(true));
    assert_eq!(m.refund(SENDER, H, T0 + 604_800), Err(LockError::CommitmentAlreadyProcessed));
    assert_eq!(m.get_total_locked(), 5000);
}

#[test]
fn refund_unknown_commitment() {
    let mut l = locked();
    assert_eq!(l.refund(SENDER, [0x44; 32], u64::MAX), Err(LockError::CommitmentNotFound));
}

#[test]
fn refund_timeout_near_end_of_time() {
    let mut l = ready();
    assert_eq!(l.lock_funds(SENDER, 5000, H, 1, u64::MAX - 10), Ok(H));
    assert_eq!(l.refund(SENDER, H, u64::MAX), Err(LockError::TimeoutNotReached));
}

#[test]
fn total_locked_overflow() {
    let mut l = ready();
    assert_eq!(l.lock_funds(SENDER, i128::MAX, H, 1, T0), Ok(H));
    assert_eq!(l.lock_funds(SENDER, 1000, [0x12; 32], 1, T0), Err(LockError::ArithmeticOverflow));
}

#[test]
fn update_config_by_admin_only() {
    let mut l = StellarBridgeComplete::new();
    assert_eq!(l.update_config(ADMIN, Some(1), None), Err(LockError::NotInitialized));
    let mut l = ready();
    assert_eq!(l.update_config(SENDER, Some(1), None), Err(LockError::Unauthorized));
    assert_eq!(l.update_config(ADMIN, Some(1), None), Ok(()));
    let cfg = l.get_config().unwrap();
    assert_eq!(cfg.min_lock_amount, 1);
    assert_eq!(cfg.relayer_fee, 10);
    assert_eq!(l.lock_funds(SENDER, 1, H, 1, T0), Ok(H));
    assert_eq!(l.transfer_ownership(ADMIN, SENDER), Ok(()));
    assert_eq!(l.update_config(ADMIN, None, Some(3)), Err(LockError::Unauthorized));
}
