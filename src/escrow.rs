//! A plain escrow without proofs: the admin releases each lock by hand.
//!
//! As on the lock ledger, moving tokens is the host's work: a successful
//! `lock_funds` pulls the amount into custody, a successful `unlock_funds`
//! pays the returned amount to the recipient.
use vstd::prelude::*;
use crate::digest::{digest_eq, AccountId, Digest};
use crate::table::DigestMap;

verus! {

/// One escrowed amount.
#[derive(Debug, Clone, Copy, PartialEq, Eq)]
pub struct LockInfo {
    pub amount: i128,
    pub sender: AccountId,
    pub timestamp: u64,
    pub recipient_hash: Digest,
}

#[derive(Debug, Clone, Copy, PartialEq, Eq, Structural)]
pub enum EscrowError {
    NotInitialized,
    Unauthorized,
    LockNotFound,
    ArithmeticOverflow,
}

/// Abstract state of the escrow.
pub ghost struct EscrowState {
    pub admin: Option<AccountId>,
    pub token: Option<AccountId>,
    pub locks: Map<Digest, LockInfo>,
    pub total_locked: i128,
}

pub struct SimpleEscrow {
    admin: Option<AccountId>,
    token: Option<AccountId>,
    locks: DigestMap<LockInfo>,
    total_locked: i128,
}

impl View for SimpleEscrow {
    type V = EscrowState;

    closed spec fn view(&self) -> EscrowState {
        EscrowState {
            admin: self.admin,
            token: self.token,
            locks: self.locks@,
            total_locked: self.total_locked,
        }
    }
}

impl SimpleEscrow {
    pub closed spec fn wf(&self) -> bool {
        self.locks.wf()
    }

    pub fn new() -> (r: Self)
        ensures
            r.wf(),
            r@ == (EscrowState {
                admin: None,
                token: None,
                locks: Map::empty(),
                total_locked: 0,
            }),
    {
        SimpleEscrow { admin: None, token: None, locks: DigestMap::new(), total_locked: 0 }
    }

    /// Sets the admin and the token, and resets the total to zero.
    pub fn initialize(&mut self, admin: AccountId, token: AccountId)
        requires
            old(self).wf(),
        ensures
            final(self).wf(),
            final(self)@ == (EscrowState {
                admin: Some(admin),
                token: Some(token),
                total_locked: 0,
                ..old(self)@
            }),
    {
        self.admin = Some(admin);
        self.token = Some(token);
        self.total_locked = 0;
    }

    /// Escrows `amount` from `sender` under `lock_id`, replacing any earlier
    /// lock of that id.
    pub fn lock_funds(
        &mut self,
        sender: AccountId,
        amount: i128,
        lock_id: Digest,
        recipient_hash: Digest,
        now: u64,
    ) -> (r: Result<(), EscrowError>)
        requires
            old(self).wf(),
        ensures
            final(self).wf(),
            r == if old(self)@.token is None {
                Err::<(), EscrowError>(EscrowError::NotInitialized)
            } else if !crate::lock_ledger::i128_fits(old(self)@.total_locked + amount) {
                Err::<(), EscrowError>(EscrowError::ArithmeticOverflow)
            } else {
                Ok::<(), EscrowError>(())
            },
            r is Err ==> final(self)@ == old(self)@,
            r is Ok ==> final(self)@ == (EscrowState {
                locks: old(self)@.locks.insert(
                    lock_id,
                    LockInfo { amount, sender, timestamp: now, recipient_hash },
                ),
                total_locked: (old(self)@.total_locked + amount) as i128,
                ..old(self)@
            }),
    {
        if self.token.is_none() {
            return Err(EscrowError::NotInitialized);
        }
        let new_total = match self.total_locked.checked_add(amount) {
            Some(t) => t,
            None => return Err(EscrowError::ArithmeticOverflow),
        };
        self.locks.insert(lock_id, LockInfo { amount, sender, timestamp: now, recipient_hash });
        self.total_locked = new_total;
        Ok(())
    }

    /// Admin only: releases the lock `lock_id` and returns its amount, to be
    /// paid to the recipient.
    pub fn unlock_funds(&mut self, caller: AccountId, lock_id: Digest) -> (r: Result<
        i128,
        EscrowError,
    >)
        requires
            old(self).wf(),
        ensures
            final(self).wf(),
            r is Err ==> final(self)@ == old(self)@,
            match old(self)@.admin {
                None => r == Err::<i128, EscrowError>(EscrowError::NotInitialized),
                Some(admin) => if caller != admin {
                    r == Err::<i128, EscrowError>(EscrowError::Unauthorized)
                } else if !old(self)@.locks.contains_key(lock_id) {
                    r == Err::<i128, EscrowError>(EscrowError::LockNotFound)
                } else {
                    let amount = old(self)@.locks[lock_id].amount;
                    if !crate::lock_ledger::i128_fits(old(self)@.total_locked - amount) {
                        r == Err::<i128, EscrowError>(EscrowError::ArithmeticOverflow)
                    } else {
                        r == Ok::<i128, EscrowError>(amount) && final(self)@ == (EscrowState {
                            locks: old(self)@.locks.remove(lock_id),
                            total_locked: (old(self)@.total_locked - amount) as i128,
                            ..old(self)@
                        })
                    }
                },
            },
    {
        let admin = match self.admin {
            Some(a) => a,
            None => return Err(EscrowError::NotInitialized),
        };
        if !digest_eq(&caller, &admin) {
            return Err(EscrowError::Unauthorized);
        }
        let info = match self.locks.get(&lock_id) {
            Some(i) => i,
            None => return Err(EscrowError::LockNotFound),
        };
        let new_total = match self.total_locked.checked_sub(info.amount) {
            Some(t) => t,
            None => return Err(EscrowError::ArithmeticOverflow),
        };
        self.locks.remove(&lock_id);
        self.total_locked = new_total;
        Ok(info.amount)
    }

    /// The lock recorded under `lock_id`, if any.
    pub fn get_lock_info(&self, lock_id: Digest) -> (r: Option<LockInfo>)
        requires
            self.wf(),
        ensures
            r == if self@.locks.contains_key(lock_id) {
                Some(self@.locks[lock_id])
            } else {
                None::<LockInfo>
            },
    {
        self.locks.get(&lock_id)
    }

    pub fn get_total_locked(&self) -> (r: i128)
        ensures
            r == self@.total_locked,
    {
        self.total_locked
    }
}

} // verus!
