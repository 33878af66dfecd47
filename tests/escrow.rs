use zk_bridge::escrow::{EscrowError, SimpleEscrow};

const ADMIN: [u8; 32] = [0xAD; 32];
const SENDER: [u8; 32] = [0x05; 32];
const ID: [u8; 32] = [0x10; 32];

#[test]
fn escrow_lock_and_unlock() {
    let mut e = SimpleEscrow::new();
    assert_eq!(e.lock_funds(SENDER, 300, ID, [1; 32], 9), Err(EscrowError::NotInitialized));
    e.initialize(ADMIN, [0x70; 32]);
    assert_eq!(e.lock_funds(SENDER, 300, ID, [1; 32], 9), Ok(()));
    assert_eq!(e.get_total_locked(), 300);
    let info = e.get_lock_info(ID).unwrap();
    assert_eq!(info.amount, 300);
    assert_eq!(info.timestamp, 9);
    assert_eq!(e.unlock_funds(SENDER, ID), Err(EscrowError::Unauthorized));
    assert_eq!(e.unlock_funds(ADMIN, ID), Ok(300));
    assert!(e.get_lock_info(ID).is_none());
    assert_eq!(e.get_total_locked(), 0);
    assert_eq!(e.unlock_funds(ADMIN, ID), Err(EscrowError::LockNotFound));
}

#[test]
fn escrow_total_overflow() {
    let mut e = SimpleEscrow::new();
    e.initialize(ADMIN, [0x70; 32]);
    assert_eq!(e.lock_funds(SENDER, i128::MAX, ID, [1; 32], 1), Ok(()));
    assert_eq!(e.lock_funds(SENDER, 1, [0x20; 32], [1; 32], 1), Err(EscrowError::ArithmeticOverflow));
    assert!(e.get_lock_info([0x20; 32]).is_none());
}
