//! The lock ledger: escrows value under a commitment hash, approves its
//! release on a valid proof, and refunds it to the sender after a timeout.
//!
//! Moving tokens is the host's work. A successful `lock_funds` means that the
//! host pulls the amount from the sender into custody within the same
//! transaction, and a successful `refund` means that it pays the returned
//! amount back to the sender; a failed call moves nothing.
use vstd::prelude::*;
use crate::digest::{digest_eq, AccountId, Digest};
use crate::proof_gate::{proof_accepted, verify_zk_proof};
use crate::table::DigestMap;

verus! {

/// Seconds after locking before the sender may take the funds back.
pub const TIMEOUT_PERIOD: u64 = 604800;

/// Status of a commitment on the lock ledger. `Locked` is the only state
/// that may change.
#[derive(Debug, Clone, Copy, PartialEq, Eq, Structural)]
pub enum CommitmentStatus {
    Locked,
    Claimed,
    Refunded,
}

/// One transfer intent, kept for audit once processed.
#[derive(Debug, Clone, Copy, PartialEq, Eq)]
pub struct BridgeCommitment {
    pub commitment_hash: Digest,
    pub sender: AccountId,
    pub amount: i128,
    pub timestamp: u64,
    pub destination_chain: u32,
    pub status: CommitmentStatus,
}

/// A proof with its public inputs `[commitment, nullifier, recipient_hash]`.
#[derive(Debug)]
pub struct ZKProof {
    pub proof: Vec<u8>,
    pub public_inputs: Vec<Digest>,
}

/// The ledger's configuration, present once initialized.
#[derive(Debug, Clone, Copy, PartialEq, Eq)]
pub struct LockConfig {
    pub admin: AccountId,
    pub token_contract: AccountId,
    pub min_lock_amount: i128,
    pub relayer_fee: i128,
    pub paused: bool,
}

#[derive(Debug, Clone, Copy, PartialEq, Eq, Structural)]
pub enum LockError {
    AlreadyInitialized,
    NotInitialized,
    Unauthorized,
    ContractPaused,
    AmountTooLow,
    CommitmentExists,
    CommitmentNotFound,
    CommitmentAlreadyProcessed,
    NullifierUsed,
    InvalidProof,
    TimeoutNotReached,
    ArithmeticOverflow,
}

/// Records published by the lock ledger for relayers.
#[derive(Debug, Clone, Copy, PartialEq, Eq)]
pub enum LockEvent {
    Initialized { admin: AccountId, token_contract: AccountId },
    FundsLocked {
        commitment_hash: Digest,
        sender: AccountId,
        amount: i128,
        destination_chain: u32,
    },
    UnlockApproved {
        commitment_hash: Digest,
        nullifier_hash: Digest,
        recipient_hash: Digest,
        amount: i128,
        destination_chain: u32,
    },
    Refunded { commitment_hash: Digest, sender: AccountId, amount: i128 },
    ConfigUpdated { admin: AccountId },
}

/// Abstract state of the lock ledger.
pub ghost struct LockState {
    pub config: Option<LockConfig>,
    pub commitments: Map<Digest, BridgeCommitment>,
    pub nullifiers: Set<Digest>,
    pub total_locked: i128,
    pub events: Seq<LockEvent>,
}

pub open spec fn i128_fits(x: int) -> bool {
    -170141183460469231731687303715884105728 <= x <= 170141183460469231731687303715884105727
}

pub open spec fn initialize_outcome(
    s: LockState,
    admin: AccountId,
    token_contract: AccountId,
    min_lock_amount: i128,
    relayer_fee: i128,
) -> (LockState, Result<(), LockError>) {
    if s.config is Some {
        (s, Err(LockError::AlreadyInitialized))
    } else {
        let config = LockConfig { admin, token_contract, min_lock_amount, relayer_fee, paused: false };
        (
            LockState {
                config: Some(config),
                total_locked: 0,
                events: s.events.push(LockEvent::Initialized { admin, token_contract }),
                ..s
            },
            Ok(()),
        )
    }
}

pub open spec fn lock_outcome(
    s: LockState,
    sender: AccountId,
    amount: i128,
    commitment_hash: Digest,
    destination_chain: u32,
    now: u64,
) -> (LockState, Result<Digest, LockError>) {
    match s.config {
        None => (s, Err(LockError::NotInitialized)),
        Some(cfg) => if cfg.paused {
            (s, Err(LockError::ContractPaused))
        } else if amount < cfg.min_lock_amount {
            (s, Err(LockError::AmountTooLow))
        } else if s.commitments.contains_key(commitment_hash) {
            (s, Err(LockError::CommitmentExists))
        } else if !i128_fits(s.total_locked + amount) {
            (s, Err(LockError::ArithmeticOverflow))
        } else {
            let record = BridgeCommitment {
                commitment_hash,
                sender,
                amount,
                timestamp: now,
                destination_chain,
                status: CommitmentStatus::Locked,
            };
            let ev = LockEvent::FundsLocked { commitment_hash, sender, amount, destination_chain };
            (
                LockState {
                    commitments: s.commitments.insert(commitment_hash, record),
                    total_locked: (s.total_locked + amount) as i128,
                    events: s.events.push(ev),
                    ..s
                },
                Ok(commitment_hash),
            )
        },
    }
}

pub open spec fn unlock_outcome(
    s: LockState,
    proof: Seq<u8>,
    commitment_hash: Digest,
    nullifier_hash: Digest,
    recipient_hash: Digest,
) -> (LockState, Result<bool, LockError>) {
    if s.nullifiers.contains(nullifier_hash) {
        (s, Err(LockError::NullifierUsed))
    } else if !s.commitments.contains_key(commitment_hash) {
        (s, Err(LockError::CommitmentNotFound))
    } else if s.commitments[commitment_hash].status != CommitmentStatus::Locked {
        (s, Err(LockError::CommitmentAlreadyProcessed))
    } else if !proof_accepted(proof, commitment_hash, nullifier_hash, recipient_hash) {
        (s, Err(LockError::InvalidProof))
    } else {
        let c = s.commitments[commitment_hash];
        let ev = LockEvent::UnlockApproved {
            commitment_hash,
            nullifier_hash,
            recipient_hash,
            amount: c.amount,
            destination_chain: c.destination_chain,
        };
        (
            LockState {
                nullifiers: s.nullifiers.insert(nullifier_hash),
                commitments: s.commitments.insert(
                    commitment_hash,
                    BridgeCommitment { status: CommitmentStatus::Claimed, ..c },
                ),
                events: s.events.push(ev),
                ..s
            },
            Ok(true),
        )
    }
}

pub open spec fn refund_outcome(s: LockState, caller: AccountId, commitment_hash: Digest, now: u64) -> (
    LockState,
    Result<i128, LockError>,
) {
    if !s.commitments.contains_key(commitment_hash) {
        (s, Err(LockError::CommitmentNotFound))
    } else {
        let c = s.commitments[commitment_hash];
        if caller != c.sender {
            (s, Err(LockError::Unauthorized))
        } else if now < c.timestamp + TIMEOUT_PERIOD {
            (s, Err(LockError::TimeoutNotReached))
        } else if c.status != CommitmentStatus::Locked {
            (s, Err(LockError::CommitmentAlreadyProcessed))
        } else if !i128_fits(s.total_locked - c.amount) {
            (s, Err(LockError::ArithmeticOverflow))
        } else {
            let ev = LockEvent::Refunded { commitment_hash, sender: c.sender, amount: c.amount };
            (
                LockState {
                    commitments: s.commitments.insert(
                        commitment_hash,
                        BridgeCommitment { status: CommitmentStatus::Refunded, ..c },
                    ),
                    total_locked: (s.total_locked - c.amount) as i128,
                    events: s.events.push(ev),
                    ..s
                },
                Ok(c.amount),
            )
        }
    }
}

pub open spec fn update_config_outcome(
    s: LockState,
    caller: AccountId,
    min_lock_amount: Option<i128>,
    relayer_fee: Option<i128>,
) -> (LockState, Result<(), LockError>) {
    match s.config {
        None => (s, Err(LockError::NotInitialized)),
        Some(cfg) => if caller != cfg.admin {
            (s, Err(LockError::Unauthorized))
        } else {
            let new_cfg = LockConfig {
                min_lock_amount: match min_lock_amount {
                    Some(v) => v,
                    None => cfg.min_lock_amount,
                },
                relayer_fee: match relayer_fee {
                    Some(v) => v,
                    None => cfg.relayer_fee,
                },
                ..cfg
            };
            (
                LockState {
                    config: Some(new_cfg),
                    events: s.events.push(LockEvent::ConfigUpdated { admin: caller }),
                    ..s
                },
                Ok(()),
            )
        },
    }
}

pub open spec fn set_paused_outcome(s: LockState, caller: AccountId, paused: bool) -> (
    LockState,
    Result<(), LockError>,
) {
    match s.config {
        None => (s, Err(LockError::NotInitialized)),
        Some(cfg) => if caller != cfg.admin {
            (s, Err(LockError::Unauthorized))
        } else {
            (LockState { config: Some(LockConfig { paused, ..cfg }), ..s }, Ok(()))
        },
    }
}

pub open spec fn transfer_ownership_outcome(s: LockState, caller: AccountId, new_admin: AccountId) -> (
    LockState,
    Result<(), LockError>,
) {
    match s.config {
        None => (s, Err(LockError::NotInitialized)),
        Some(cfg) => if caller != cfg.admin {
            (s, Err(LockError::Unauthorized))
        } else {
            (LockState { config: Some(LockConfig { admin: new_admin, ..cfg }), ..s }, Ok(()))
        },
    }
}

/// The lock ledger.
pub struct StellarBridgeComplete {
    config: Option<LockConfig>,
    commitments: DigestMap<BridgeCommitment>,
    nullifiers: DigestMap<bool>,
    total_locked: i128,
    events: Vec<LockEvent>,
}

impl View for StellarBridgeComplete {
    type V = LockState;

    closed spec fn view(&self) -> LockState {
        LockState {
            config: self.config,
            commitments: self.commitments@,
            nullifiers: self.nullifiers@.dom(),
            total_locked: self.total_locked,
            events: self.events@,
        }
    }
}

impl StellarBridgeComplete {
    pub closed spec fn wf(&self) -> bool {
        &&& self.commitments.wf()
        &&& self.nullifiers.wf()
    }

    /// A ledger that has not been initialized yet.
    pub fn new() -> (r: Self)
        ensures
            r.wf(),
            r@.config is None,
            r@.commitments == Map::<Digest, BridgeCommitment>::empty(),
            r@.nullifiers == Set::<Digest>::empty(),
            r@.total_locked == 0,
            r@.events == Seq::<LockEvent>::empty(),
    {
        let r = StellarBridgeComplete {
            config: None,
            commitments: DigestMap::new(),
            nullifiers: DigestMap::new(),
            total_locked: 0,
            events: Vec::new(),
        };
        assert(r.nullifiers@.dom() =~= Set::<Digest>::empty());
        r
    }

    /// Records the configuration, once.
    pub fn initialize(
        &mut self,
        admin: AccountId,
        token_contract: AccountId,
        min_lock_amount: i128,
        relayer_fee: i128,
    ) -> (r: Result<(), LockError>)
        requires
            old(self).wf(),
        ensures
            final(self).wf(),
            (final(self)@, r) == initialize_outcome(
                old(self)@,
                admin,
                token_contract,
                min_lock_amount,
                relayer_fee,
            ),
    {
        if self.config.is_some() {
            return Err(LockError::AlreadyInitialized);
        }
        self.config = Some(
            LockConfig { admin, token_contract, min_lock_amount, relayer_fee, paused: false },
        );
        self.total_locked = 0;
        self.events.push(LockEvent::Initialized { admin, token_contract });
        Ok(())
    }

    /// Records a `Locked` commitment for `amount` from `sender` and returns its
    /// hash. A hash may be recorded only once.
    pub fn lock_funds(
        &mut self,
        sender: AccountId,
        amount: i128,
        commitment_hash: Digest,
        destination_chain: u32,
        now: u64,
    ) -> (r: Result<Digest, LockError>)
        requires
            old(self).wf(),
        ensures
            final(self).wf(),
            (final(self)@, r) == lock_outcome(
                old(self)@,
                sender,
                amount,
                commitment_hash,
                destination_chain,
                now,
            ),
    {
        let cfg = match self.config {
            Some(c) => c,
            None => return Err(LockError::NotInitialized),
        };
        if cfg.paused {
            return Err(LockError::ContractPaused);
        }
        if amount < cfg.min_lock_amount {
            return Err(LockError::AmountTooLow);
        }
        if self.commitments.contains(&commitment_hash) {
            return Err(LockError::CommitmentExists);
        }
        let new_total = match self.total_locked.checked_add(amount) {
            Some(t) => t,
            None => return Err(LockError::ArithmeticOverflow),
        };
        let record = BridgeCommitment {
            commitment_hash,
            sender,
            amount,
            timestamp: now,
            destination_chain,
            status: CommitmentStatus::Locked,
        };
        self.commitments.insert(commitment_hash, record);
        self.total_locked = new_total;
        self.events.push(
            LockEvent::FundsLocked { commitment_hash, sender, amount, destination_chain },
        );
        Ok(commitment_hash)
    }

    /// Approves the release of a `Locked` commitment on a valid proof,
    /// consuming `nullifier_hash` and marking the commitment `Claimed`.
    pub fn verify_and_unlock(
        &mut self,
        proof: Vec<u8>,
        commitment_hash: Digest,
        nullifier_hash: Digest,
        recipient_hash: Digest,
    ) -> (r: Result<bool, LockError>)
        requires
            old(self).wf(),
        ensures
            final(self).wf(),
            (final(self)@, r) == unlock_outcome(
                old(self)@,
                proof@,
                commitment_hash,
                nullifier_hash,
                recipient_hash,
            ),
    {
        if self.nullifiers.contains(&nullifier_hash) {
            return Err(LockError::NullifierUsed);
        }
        let c = match self.commitments.get(&commitment_hash) {
            Some(c) => c,
            None => return Err(LockError::CommitmentNotFound),
        };
        if c.status != CommitmentStatus::Locked {
            return Err(LockError::CommitmentAlreadyProcessed);
        }
        if !verify_zk_proof(proof.as_slice(), &commitment_hash, &nullifier_hash, &recipient_hash) {
            return Err(LockError::InvalidProof);
        }
        self.nullifiers.insert(nullifier_hash, true);
        self.commitments.insert(
            commitment_hash,
            BridgeCommitment { status: CommitmentStatus::Claimed, ..c },
        );
        self.events.push(
            LockEvent::UnlockApproved {
                commitment_hash,
                nullifier_hash,
                recipient_hash,
                amount: c.amount,
                destination_chain: c.destination_chain,
            },
        );
        proof {
            assert(self.nullifiers@.dom() =~= old(self).nullifiers@.dom().insert(nullifier_hash));
        }
        Ok(true)
    }

    /// Returns a `Locked` commitment to its sender once the timeout has passed,
    /// marking it `Refunded`; the result is the amount to pay back.
    pub fn refund(&mut self, caller: AccountId, commitment_hash: Digest, now: u64) -> (r: Result<
        i128,
        LockError,
    >)
        requires
            old(self).wf(),
        ensures
            final(self).wf(),
            (final(self)@, r) == refund_outcome(old(self)@, caller, commitment_hash, now),
    {
        let c = match self.commitments.get(&commitment_hash) {
            Some(c) => c,
            None => return Err(LockError::CommitmentNotFound),
        };
        if !digest_eq(&caller, &c.sender) {
            return Err(LockError::Unauthorized);
        }
        if c.timestamp > u64::MAX - TIMEOUT_PERIOD || now < c.timestamp + TIMEOUT_PERIOD {
            return Err(LockError::TimeoutNotReached);
        }
        if c.status != CommitmentStatus::Locked {
            return Err(LockError::CommitmentAlreadyProcessed);
        }
        let new_total = match self.total_locked.checked_sub(c.amount) {
            Some(t) => t,
            None => return Err(LockError::ArithmeticOverflow),
        };
        self.commitments.insert(
            commitment_hash,
            BridgeCommitment { status: CommitmentStatus::Refunded, ..c },
        );
        self.total_locked = new_total;
        self.events.push(
            LockEvent::Refunded { commitment_hash, sender: c.sender, amount: c.amount },
        );
        Ok(c.amount)
    }

    /// Admin only: replaces the minimum amount and the relayer fee that are given.
    pub fn update_config(
        &mut self,
        caller: AccountId,
        min_lock_amount: Option<i128>,
        relayer_fee: Option<i128>,
    ) -> (r: Result<(), LockError>)
        requires
            old(self).wf(),
        ensures
            final(self).wf(),
            (final(self)@, r) == update_config_outcome(
                old(self)@,
                caller,
                min_lock_amount,
                relayer_fee,
            ),
    {
        let mut cfg = match self.config {
            Some(c) => c,
            None => return Err(LockError::NotInitialized),
        };
        if !digest_eq(&caller, &cfg.admin) {
            return Err(LockError::Unauthorized);
        }
        if let Some(min_amount) = min_lock_amount {
            cfg.min_lock_amount = min_amount;
        }
        if let Some(fee) = relayer_fee {
            cfg.relayer_fee = fee;
        }
        self.config = Some(cfg);
        self.events.push(LockEvent::ConfigUpdated { admin: caller });
        Ok(())
    }

    /// Admin only: sets the pause flag.
    pub fn set_paused(&mut self, caller: AccountId, paused: bool) -> (r: Result<(), LockError>)
        requires
            old(self).wf(),
        ensures
            final(self).wf(),
            (final(self)@, r) == set_paused_outcome(old(self)@, caller, paused),
    {
        let mut cfg = match self.config {
            Some(c) => c,
            None => return Err(LockError::NotInitialized),
        };
        if !digest_eq(&caller, &cfg.admin) {
            return Err(LockError::Unauthorized);
        }
        cfg.paused = paused;
        self.config = Some(cfg);
        Ok(())
    }

    /// Admin only: hands the ledger to `new_admin` in one step.
    pub fn transfer_ownership(&mut self, caller: AccountId, new_admin: AccountId) -> (r: Result<
        (),
        LockError,
    >)
        requires
            old(self).wf(),
        ensures
            final(self).wf(),
            (final(self)@, r) == transfer_ownership_outcome(old(self)@, caller, new_admin),
    {
        let mut cfg = match self.config {
            Some(c) => c,
            None => return Err(LockError::NotInitialized),
        };
        if !digest_eq(&caller, &cfg.admin) {
            return Err(LockError::Unauthorized);
        }
        cfg.admin = new_admin;
        self.config = Some(cfg);
        Ok(())
    }

    /// The commitment recorded under `commitment_hash`, if any.
    pub fn get_commitment(&self, commitment_hash: Digest) -> (r: Option<BridgeCommitment>)
        requires
            self.wf(),
        ensures
            r == if self@.commitments.contains_key(commitment_hash) {
                Some(self@.commitments[commitment_hash])
            } else {
                None::<BridgeCommitment>
            },
    {
        self.commitments.get(&commitment_hash)
    }

    /// Whether `nullifier_hash` has been consumed.
    pub fn is_nullifier_used(&self, nullifier_hash: Digest) -> (r: bool)
        requires
            self.wf(),
        ensures
            r == self@.nullifiers.contains(nullifier_hash),
    {
        self.nullifiers.contains(&nullifier_hash)
    }

    /// Total value in custody; zero before initialization.
    pub fn get_total_locked(&self) -> (r: i128)
        ensures
            r == self@.total_locked,
    {
        self.total_locked
    }

    /// The configuration, once initialized.
    pub fn get_config(&self) -> (r: Option<LockConfig>)
        ensures
            r == self@.config,
    {
        self.config
    }

    /// Every record published so far, oldest first.
    pub fn events(&self) -> (r: &Vec<LockEvent>)
        ensures
            r@ == self@.events,
    {
        &self.events
    }
}

} // verus!

verus! {

/// A call on the lock ledger, as the abstract state machine sees it.
pub ghost enum LockCall {
    Initialize {
        admin: AccountId,
        token_contract: AccountId,
        min_lock_amount: i128,
        relayer_fee: i128,
    },
    Lock {
        sender: AccountId,
        amount: i128,
        commitment_hash: Digest,
        destination_chain: u32,
        now: u64,
    },
    Unlock {
        proof: Seq<u8>,
        commitment_hash: Digest,
        nullifier_hash: Digest,
        recipient_hash: Digest,
    },
    Refund { caller: AccountId, commitment_hash: Digest, now: u64 },
    UpdateConfig { caller: AccountId, new_min_lock_amount: Option<i128>, new_relayer_fee: Option<i128> },
    SetPaused { caller: AccountId, paused: bool },
    TransferOwnership { caller: AccountId, new_admin: AccountId },
}

/// State after one call, exactly as the ledger's methods produce it, and
/// whether the call succeeded.
pub open spec fn apply_lock_call(s: LockState, c: LockCall) -> (LockState, bool) {
    match c {
        LockCall::Initialize { admin, token_contract, min_lock_amount, relayer_fee } => {
            let (t, r) = initialize_outcome(s, admin, token_contract, min_lock_amount, relayer_fee);
            (t, r is Ok)
        },
        LockCall::Lock { sender, amount, commitment_hash, destination_chain, now } => {
            let (t, r) = lock_outcome(s, sender, amount, commitment_hash, destination_chain, now);
            (t, r is Ok)
        },
        LockCall::Unlock { proof, commitment_hash, nullifier_hash, recipient_hash } => {
            let (t, r) = unlock_outcome(s, proof, commitment_hash, nullifier_hash, recipient_hash);
            (t, r is Ok)
        },
        LockCall::Refund { caller, commitment_hash, now } => {
            let (t, r) = refund_outcome(s, caller, commitment_hash, now);
            (t, r is Ok)
        },
        LockCall::UpdateConfig { caller, new_min_lock_amount, new_relayer_fee } => {
            let (t, r) = update_config_outcome(s, caller, new_min_lock_amount, new_relayer_fee);
            (t, r is Ok)
        },
        LockCall::SetPaused { caller, paused } => {
            let (t, r) = set_paused_outcome(s, caller, paused);
            (t, r is Ok)
        },
        LockCall::TransferOwnership { caller, new_admin } => {
            let (t, r) = transfer_ownership_outcome(s, caller, new_admin);
            (t, r is Ok)
        },
    }
}

/// State after a sequence of calls, whatever each of them returned.
pub open spec fn run_lock_calls(s: LockState, calls: Seq<LockCall>) -> LockState
    decreases calls.len(),
{
    if calls.len() == 0 {
        s
    } else {
        run_lock_calls(apply_lock_call(s, calls[0]).0, calls.drop_first())
    }
}

/// What no call undoes: a consumed nullifier stays consumed, a recorded
/// commitment stays recorded, and one that has left `Locked` keeps its record.
pub open spec fn lock_history_kept(s: LockState, t: LockState) -> bool {
    &&& s.nullifiers.subset_of(t.nullifiers)
    &&& forall|h: Digest| #[trigger]
        s.commitments.contains_key(h) ==> t.commitments.contains_key(h)
    &&& forall|h: Digest|
        s.commitments.contains_key(h) && s.commitments[h].status != CommitmentStatus::Locked
            ==> #[trigger] t.commitments[h] == s.commitments[h]
}

pub proof fn lemma_call_keeps_history(s: LockState, c: LockCall)
    ensures
        lock_history_kept(s, apply_lock_call(s, c).0),
{
}

/// Nullifiers, recorded commitments and terminal statuses survive any
/// sequence of calls.
pub proof fn lemma_run_keeps_history(s: LockState, calls: Seq<LockCall>)
    ensures
        lock_history_kept(s, run_lock_calls(s, calls)),
    decreases calls.len(),
{
    if calls.len() > 0 {
        let s1 = apply_lock_call(s, calls[0]).0;
        lemma_call_keeps_history(s, calls[0]);
        lemma_run_keeps_history(s1, calls.drop_first());
    }
}

/// No double spend: after an unlock with a nullifier has succeeded, whatever
/// calls follow, a further unlock with that nullifier fails with
/// `NullifierUsed` and changes nothing.
pub proof fn lemma_no_double_unlock(s: LockState, first: LockCall, between: Seq<LockCall>, second: LockCall)
    requires
        first is Unlock,
        second is Unlock,
        second->Unlock_nullifier_hash == first->Unlock_nullifier_hash,
        apply_lock_call(s, first).1,
    ensures
        ({
            let t = run_lock_calls(apply_lock_call(s, first).0, between);
            unlock_outcome(
                t,
                second->Unlock_proof,
                second->Unlock_commitment_hash,
                second->Unlock_nullifier_hash,
                second->Unlock_recipient_hash,
            ) == (t, Err::<bool, LockError>(LockError::NullifierUsed))
        }),
{
    lemma_run_keeps_history(apply_lock_call(s, first).0, between);
}

/// A commitment hash is recorded once: after a lock with a hash has
/// succeeded, whatever calls follow, a further lock with that hash fails and
/// changes nothing (so no tokens move); once the ledger is initialized, not
/// paused and the amount is not below the minimum, it fails with
/// `CommitmentExists`.
pub proof fn lemma_commitment_unique(s: LockState, first: LockCall, between: Seq<LockCall>, second: LockCall)
    requires
        first is Lock,
        second is Lock,
        second->Lock_commitment_hash == first->Lock_commitment_hash,
        apply_lock_call(s, first).1,
    ensures
        ({
            let t = run_lock_calls(apply_lock_call(s, first).0, between);
            let (u, r) = lock_outcome(
                t,
                second->Lock_sender,
                second->Lock_amount,
                second->Lock_commitment_hash,
                second->Lock_destination_chain,
                second->Lock_now,
            );
            &&& r is Err
            &&& u == t
            &&& (t.config is Some && !t.config->0.paused && second->Lock_amount
                >= t.config->0.min_lock_amount) ==> r == Err::<Digest, LockError>(
                LockError::CommitmentExists,
            )
        }),
{
    let s1 = apply_lock_call(s, first).0;
    assert(s1.commitments.contains_key(first->Lock_commitment_hash));
    lemma_run_keeps_history(s1, between);
    let t = run_lock_calls(s1, between);
    assert(t.commitments.contains_key(second->Lock_commitment_hash));
}

/// A status leaves `Locked` at most once: a claim or a refund of a commitment
/// that has left it fails with `CommitmentAlreadyProcessed`, once the checks
/// that come before (an unused nullifier; the sender, after the timeout)
/// pass, and changes nothing.
pub proof fn lemma_processed_is_final(s: LockState, c: LockCall)
    requires
        c is Unlock || c is Refund,
        ({
            let h = if c is Unlock { c->Unlock_commitment_hash } else { c->Refund_commitment_hash };
            &&& s.commitments.contains_key(h)
            &&& s.commitments[h].status != CommitmentStatus::Locked
            &&& c is Unlock ==> !s.nullifiers.contains(c->Unlock_nullifier_hash)
            &&& c is Refund ==> c->Refund_caller == s.commitments[h].sender && c->Refund_now
                >= s.commitments[h].timestamp + TIMEOUT_PERIOD
        }),
    ensures
        c is Unlock ==> unlock_outcome(
            s,
            c->Unlock_proof,
            c->Unlock_commitment_hash,
            c->Unlock_nullifier_hash,
            c->Unlock_recipient_hash,
        ) == (s, Err::<bool, LockError>(LockError::CommitmentAlreadyProcessed)),
        c is Refund ==> refund_outcome(s, c->Refund_caller, c->Refund_commitment_hash, c->Refund_now)
            == (s, Err::<i128, LockError>(LockError::CommitmentAlreadyProcessed)),
{
}

/// While paused, locking fails with `ContractPaused` and changes nothing.
pub proof fn lemma_lock_pause_gate(
    s: LockState,
    sender: AccountId,
    amount: i128,
    commitment_hash: Digest,
    destination_chain: u32,
    now: u64,
)
    requires
        s.config is Some,
        s.config->0.paused,
    ensures
        lock_outcome(s, sender, amount, commitment_hash, destination_chain, now) == (
            s,
            Err::<Digest, LockError>(LockError::ContractPaused),
        ),
{
}

} // verus!
