//! The mint ledger: mints a wrapped balance once per nullifier after the proof
//! gate accepts, and burns it to request the reverse transfer.
use vstd::prelude::*;
use crate::digest::{digest_eq, AccountId, Digest};
use crate::proof_gate::{blake2x256_of, hash_recipient, proof_accepted, verify_zk_proof};
use crate::table::DigestMap;

verus! {

/// Largest value of a `u128`, as a mathematical integer.
pub open spec fn u128_max() -> int {
    340282366920938463463374607431768211455
}

/// Status of a commitment recorded on the mint ledger.
#[derive(Debug, Clone, Copy, PartialEq, Eq, Structural)]
pub enum CommitmentStatus {
    Pending,
    Minted,
    Burned,
}

/// Audit record of a processed transfer.
#[derive(Debug, Clone, Copy, PartialEq, Eq)]
pub struct BridgeCommitment {
    pub commitment_hash: Digest,
    pub source_chain: u32,
    pub amount: u128,
    pub timestamp: u64,
    pub status: CommitmentStatus,
}

/// A proof with its public inputs `[commitment, nullifier, recipient_hash]`.
#[derive(Debug)]
pub struct ZKProof {
    pub proof: Vec<u8>,
    pub public_inputs: Vec<Digest>,
}

/// Wrapped value credited to a recipient.
#[derive(Debug, Clone, Copy, PartialEq, Eq)]
pub struct FundsMinted {
    pub commitment_hash: Digest,
    pub recipient: AccountId,
    pub amount: u128,
    pub nullifier_hash: Digest,
}

/// Wrapped value burned for a transfer back to the lock ledger.
#[derive(Debug, Clone, Copy, PartialEq, Eq)]
pub struct FundsBurned {
    pub sender: AccountId,
    pub amount: u128,
    pub destination_commitment: Digest,
}

/// Outcome of a proof check.
#[derive(Debug, Clone, Copy, PartialEq, Eq)]
pub struct ProofVerified {
    pub commitment_hash: Digest,
    pub nullifier_hash: Digest,
    pub verified: bool,
}

/// Records published by the mint ledger for relayers.
#[derive(Debug, Clone, Copy, PartialEq, Eq)]
pub enum MintEvent {
    ProofVerified(ProofVerified),
    FundsMinted(FundsMinted),
    FundsBurned(FundsBurned),
}

#[derive(Debug, Clone, Copy, PartialEq, Eq, Structural)]
pub enum BridgeError {
    Unauthorized,
    ContractPaused,
    InvalidProof,
    NullifierUsed,
    CommitmentNotFound,
    CommitmentAlreadyProcessed,
    AmountTooLow,
    InsufficientBalance,
    ArithmeticOverflow,
}

/// Abstract state of the mint ledger.
pub ghost struct MintState {
    pub owner: AccountId,
    pub total_minted: u128,
    pub total_burned: u128,
    pub commitments: Map<Digest, BridgeCommitment>,
    pub nullifiers: Set<Digest>,
    pub balances: Map<AccountId, u128>,
    pub min_mint_amount: u128,
    pub relayer_fee_bps: u32,
    pub paused: bool,
    pub events: Seq<MintEvent>,
}

impl MintState {
    /// Balance of an account, zero when it holds none.
    pub open spec fn balance(self, a: AccountId) -> u128 {
        if self.balances.contains_key(a) { self.balances[a] } else { 0 }
    }
}

/// The relayer fee: `floor(amount * fee_bps / 10000)`.
pub open spec fn fee_of(amount: u128, fee_bps: u32) -> int {
    (amount * fee_bps) / 10000
}

/// What the recipient is credited: the amount less the fee.
pub open spec fn mint_amount_of(amount: u128, fee_bps: u32) -> int {
    amount - fee_of(amount, fee_bps)
}

/// Outcome of a mint request, given the recipient's commitment.
pub open spec fn mint_outcome(
    s: MintState,
    proof: Seq<u8>,
    commitment_hash: Digest,
    nullifier_hash: Digest,
    recipient: AccountId,
    recipient_hash: Digest,
    amount: u128,
    source_chain: u32,
    now: u64,
) -> (MintState, Result<(), BridgeError>) {
    let m = mint_amount_of(amount, s.relayer_fee_bps);
    if s.paused {
        (s, Err(BridgeError::ContractPaused))
    } else if amount < s.min_mint_amount {
        (s, Err(BridgeError::AmountTooLow))
    } else if s.nullifiers.contains(nullifier_hash) {
        (s, Err(BridgeError::NullifierUsed))
    } else if !proof_accepted(proof, commitment_hash, nullifier_hash, recipient_hash) {
        let ev = MintEvent::ProofVerified(
            ProofVerified { commitment_hash, nullifier_hash, verified: false },
        );
        (MintState { events: s.events.push(ev), ..s }, Err(BridgeError::InvalidProof))
    } else if amount * s.relayer_fee_bps > u128_max() || m < 0 || s.balance(recipient) + m
        > u128_max() || s.total_minted + m > u128_max() {
        (s, Err(BridgeError::ArithmeticOverflow))
    } else {
        let record = BridgeCommitment {
            commitment_hash,
            source_chain,
            amount: m as u128,
            timestamp: now,
            status: CommitmentStatus::Minted,
        };
        let verified = MintEvent::ProofVerified(
            ProofVerified { commitment_hash, nullifier_hash, verified: true },
        );
        let minted = MintEvent::FundsMinted(
            FundsMinted { commitment_hash, recipient, amount: m as u128, nullifier_hash },
        );
        (
            MintState {
                nullifiers: s.nullifiers.insert(nullifier_hash),
                balances: s.balances.insert(recipient, (s.balance(recipient) + m) as u128),
                total_minted: (s.total_minted + m) as u128,
                commitments: s.commitments.insert(commitment_hash, record),
                events: s.events.push(verified).push(minted),
                ..s
            },
            Ok(()),
        )
    }
}

/// Outcome of burning `amount` of the caller's balance.
pub open spec fn burn_outcome(
    s: MintState,
    caller: AccountId,
    amount: u128,
    destination_commitment: Digest,
) -> (MintState, Result<(), BridgeError>) {
    if s.paused {
        (s, Err(BridgeError::ContractPaused))
    } else if s.balance(caller) < amount {
        (s, Err(BridgeError::InsufficientBalance))
    } else if s.total_burned + amount > u128_max() {
        (s, Err(BridgeError::ArithmeticOverflow))
    } else {
        let ev = MintEvent::FundsBurned(FundsBurned { sender: caller, amount, destination_commitment });
        (
            MintState {
                balances: s.balances.insert(caller, (s.balance(caller) - amount) as u128),
                total_burned: (s.total_burned + amount) as u128,
                events: s.events.push(ev),
                ..s
            },
            Ok(()),
        )
    }
}

/// Outcome of moving `amount` from the caller to `to`. A transfer to oneself
/// changes nothing once the balance covers it.
pub open spec fn transfer_outcome(
    s: MintState,
    caller: AccountId,
    to: AccountId,
    amount: u128,
) -> (MintState, Result<(), BridgeError>) {
    if s.balance(caller) < amount {
        (s, Err(BridgeError::InsufficientBalance))
    } else if caller == to {
        (s, Ok(()))
    } else if s.balance(to) + amount > u128_max() {
        (s, Err(BridgeError::ArithmeticOverflow))
    } else {
        (
            MintState {
                balances: s.balances.insert(caller, (s.balance(caller) - amount) as u128).insert(
                    to,
                    (s.balance(to) + amount) as u128,
                ),
                ..s
            },
            Ok(()),
        )
    }
}

/// Outcome of an owner's configuration change; absent fields stay as they are.
pub open spec fn update_config_outcome(
    s: MintState,
    caller: AccountId,
    min_mint_amount: Option<u128>,
    relayer_fee_bps: Option<u32>,
) -> (MintState, Result<(), BridgeError>) {
    if caller != s.owner {
        (s, Err(BridgeError::Unauthorized))
    } else {
        (
            MintState {
                min_mint_amount: match min_mint_amount {
                    Some(v) => v,
                    None => s.min_mint_amount,
                },
                relayer_fee_bps: match relayer_fee_bps {
                    Some(v) => v,
                    None => s.relayer_fee_bps,
                },
                ..s
            },
            Ok(()),
        )
    }
}

pub open spec fn set_paused_outcome(s: MintState, caller: AccountId, paused: bool) -> (
    MintState,
    Result<(), BridgeError>,
) {
    if caller != s.owner {
        (s, Err(BridgeError::Unauthorized))
    } else {
        (MintState { paused, ..s }, Ok(()))
    }
}

pub open spec fn transfer_ownership_outcome(
    s: MintState,
    caller: AccountId,
    new_owner: AccountId,
) -> (MintState, Result<(), BridgeError>) {
    if caller != s.owner {
        (s, Err(BridgeError::Unauthorized))
    } else {
        (MintState { owner: new_owner, ..s }, Ok(()))
    }
}

/// The mint ledger.
pub struct PolkadotBridgeComplete {
    owner: AccountId,
    total_minted: u128,
    total_burned: u128,
    commitments: DigestMap<BridgeCommitment>,
    nullifiers: DigestMap<bool>,
    balances: DigestMap<u128>,
    min_mint_amount: u128,
    relayer_fee_bps: u32,
    paused: bool,
    events: Vec<MintEvent>,
}

impl View for PolkadotBridgeComplete {
    type V = MintState;

    closed spec fn view(&self) -> MintState {
        MintState {
            owner: self.owner,
            total_minted: self.total_minted,
            total_burned: self.total_burned,
            commitments: self.commitments@,
            nullifiers: self.nullifiers@.dom(),
            balances: self.balances@,
            min_mint_amount: self.min_mint_amount,
            relayer_fee_bps: self.relayer_fee_bps,
            paused: self.paused,
            events: self.events@,
        }
    }
}

impl PolkadotBridgeComplete {
    /// Sum of all balances.
    pub closed spec fn balance_sum(&self) -> int {
        self.balances.total()
    }

    /// The ledger is well formed, and its balances add up to what was minted
    /// less what was burned.
    pub closed spec fn wf(&self) -> bool {
        &&& self.commitments.wf()
        &&& self.nullifiers.wf()
        &&& self.balances.wf()
        &&& self.balance_sum() + self.total_burned == self.total_minted
    }

    /// A new ledger owned by `caller`, with nothing minted and not paused.
    pub fn new(caller: AccountId, min_mint_amount: u128, relayer_fee_bps: u32) -> (r: Self)
        ensures
            r.wf(),
            r@.owner == caller,
            r@.total_minted == 0,
            r@.total_burned == 0,
            r@.commitments == Map::<Digest, BridgeCommitment>::empty(),
            r@.nullifiers == Set::<Digest>::empty(),
            r@.balances == Map::<AccountId, u128>::empty(),
            r@.min_mint_amount == min_mint_amount,
            r@.relayer_fee_bps == relayer_fee_bps,
            !r@.paused,
            r@.events == Seq::<MintEvent>::empty(),
    {
        let r = PolkadotBridgeComplete {
            owner: caller,
            total_minted: 0,
            total_burned: 0,
            commitments: DigestMap::new(),
            nullifiers: DigestMap::new(),
            balances: DigestMap::new(),
            min_mint_amount,
            relayer_fee_bps,
            paused: false,
            events: Vec::new(),
        };
        assert(r.nullifiers@.dom() =~= Set::<Digest>::empty());
        r
    }

    fn balance_get(&self, a: &AccountId) -> (r: u128)
        requires
            self.balances.wf(),
        ensures
            r == self@.balance(*a),
    {
        match self.balances.get(a) {
            Some(v) => v,
            None => 0,
        }
    }

    /// The relayer fee on `amount`; `None` when `amount * fee_bps` overflows.
    pub fn calculate_fee(&self, amount: u128) -> (r: Option<u128>)
        ensures
            r == if amount * self@.relayer_fee_bps <= u128_max() {
                Some(fee_of(amount, self@.relayer_fee_bps) as u128)
            } else {
                None::<u128>
            },
    {
        match amount.checked_mul(self.relayer_fee_bps as u128) {
            Some(p) => Some(p / 10000),
            None => None,
        }
    }

    /// Verifies a proof and mints `amount` less the relayer fee to `recipient`,
    /// consuming `nullifier_hash`. The proof is bound to the recipient's
    /// commitment, the BLAKE2b-256 digest of its bytes.
    pub fn verify_and_mint(
        &mut self,
        proof: Vec<u8>,
        commitment_hash: Digest,
        nullifier_hash: Digest,
        recipient: AccountId,
        amount: u128,
        source_chain: u32,
        now: u64,
    ) -> (r: Result<(), BridgeError>)
        requires
            old(self).wf(),
        ensures
            final(self).wf(),
            (final(self)@, r) == mint_outcome(
                old(self)@,
                proof@,
                commitment_hash,
                nullifier_hash,
                recipient,
                blake2x256_of(recipient@),
                amount,
                source_chain,
                now,
            ),
    {
        let recipient_hash = hash_recipient(&recipient);
        self.mint_with_recipient_hash(
            proof,
            commitment_hash,
            nullifier_hash,
            recipient,
            recipient_hash,
            amount,
            source_chain,
            now,
        )
    }

    /// Verifies a proof and mints, given the recipient's commitment
    /// `recipient_hash`; the rest is as in `verify_and_mint`.
    pub fn mint_with_recipient_hash(
        &mut self,
        proof: Vec<u8>,
        commitment_hash: Digest,
        nullifier_hash: Digest,
        recipient: AccountId,
        recipient_hash: Digest,
        amount: u128,
        source_chain: u32,
        now: u64,
    ) -> (r: Result<(), BridgeError>)
        requires
            old(self).wf(),
        ensures
            final(self).wf(),
            (final(self)@, r) == mint_outcome(
                old(self)@,
                proof@,
                commitment_hash,
                nullifier_hash,
                recipient,
                recipient_hash,
                amount,
                source_chain,
                now,
            ),
    {
        if self.paused {
            return Err(BridgeError::ContractPaused);
        }
        if amount < self.min_mint_amount {
            return Err(BridgeError::AmountTooLow);
        }
        if self.nullifiers.contains(&nullifier_hash) {
            return Err(BridgeError::NullifierUsed);
        }
        if !verify_zk_proof(proof.as_slice(), &commitment_hash, &nullifier_hash, &recipient_hash) {
            self.events.push(
                MintEvent::ProofVerified(
                    ProofVerified { commitment_hash, nullifier_hash, verified: false },
                ),
            );
            return Err(BridgeError::InvalidProof);
        }
        // Every check comes before the first change, so a failure leaves the
        // ledger as it was.
        let fee = match self.calculate_fee(amount) {
            Some(f) => f,
            None => return Err(BridgeError::ArithmeticOverflow),
        };
        let mint_amount = match amount.checked_sub(fee) {
            Some(m) => m,
            None => return Err(BridgeError::ArithmeticOverflow),
        };
        let current_balance = self.balance_get(&recipient);
        let new_balance = match current_balance.checked_add(mint_amount) {
            Some(b) => b,
            None => return Err(BridgeError::ArithmeticOverflow),
        };
        let new_total = match self.total_minted.checked_add(mint_amount) {
            Some(t) => t,
            None => return Err(BridgeError::ArithmeticOverflow),
        };
        let ghost old_balances = self.balances;
        self.nullifiers.insert(nullifier_hash, true);
        self.balances.insert(recipient, new_balance);
        proof {
            DigestMap::<u128>::lemma_insert_total(&old_balances, &self.balances, recipient, new_balance);
        }
        self.total_minted = new_total;
        let record = BridgeCommitment {
            commitment_hash,
            source_chain,
            amount: mint_amount,
            timestamp: now,
            status: CommitmentStatus::Minted,
        };
        self.commitments.insert(commitment_hash, record);
        self.events.push(
            MintEvent::ProofVerified(
                ProofVerified { commitment_hash, nullifier_hash, verified: true },
            ),
        );
        self.events.push(
            MintEvent::FundsMinted(
                FundsMinted { commitment_hash, recipient, amount: mint_amount, nullifier_hash },
            ),
        );
        proof {
            assert(self.nullifiers@.dom() =~= old(self).nullifiers@.dom().insert(nullifier_hash));
        }
        Ok(())
    }

    /// Burns `amount` of the caller's balance and publishes the burn, carrying
    /// `destination_commitment`, for relayers to unlock on the other ledger.
    pub fn burn_and_bridge(
        &mut self,
        caller: AccountId,
        amount: u128,
        destination_commitment: Digest,
    ) -> (r: Result<(), BridgeError>)
        requires
            old(self).wf(),
        ensures
            final(self).wf(),
            (final(self)@, r) == burn_outcome(old(self)@, caller, amount, destination_commitment),
    {
        if self.paused {
            return Err(BridgeError::ContractPaused);
        }
        let current_balance = self.balance_get(&caller);
        if current_balance < amount {
            return Err(BridgeError::InsufficientBalance);
        }
        let new_total = match self.total_burned.checked_add(amount) {
            Some(t) => t,
            None => return Err(BridgeError::ArithmeticOverflow),
        };
        let ghost old_balances = self.balances;
        self.balances.insert(caller, current_balance - amount);
        proof {
            DigestMap::<u128>::lemma_insert_total(
                &old_balances,
                &self.balances,
                caller,
                (current_balance - amount) as u128,
            );
        }
        self.total_burned = new_total;
        self.events.push(
            MintEvent::FundsBurned(FundsBurned { sender: caller, amount, destination_commitment }),
        );
        Ok(())
    }

    /// Moves `amount` of wrapped balance from the caller to `to`.
    pub fn transfer(&mut self, caller: AccountId, to: AccountId, amount: u128) -> (r: Result<
        (),
        BridgeError,
    >)
        requires
            old(self).wf(),
        ensures
            final(self).wf(),
            (final(self)@, r) == transfer_outcome(old(self)@, caller, to, amount),
    {
        let from_balance = self.balance_get(&caller);
        if from_balance < amount {
            return Err(BridgeError::InsufficientBalance);
        }
        if digest_eq(&caller, &to) {
            return Ok(());
        }
        let to_balance = self.balance_get(&to);
        let new_to_balance = match to_balance.checked_add(amount) {
            Some(b) => b,
            None => return Err(BridgeError::ArithmeticOverflow),
        };
        let ghost b0 = self.balances;
        self.balances.insert(caller, from_balance - amount);
        let ghost b1 = self.balances;
        proof {
            DigestMap::<u128>::lemma_insert_total(&b0, &b1, caller, (from_balance - amount) as u128);
            assert(b1.amount(to) == to_balance);
        }
        self.balances.insert(to, new_to_balance);
        proof {
            DigestMap::<u128>::lemma_insert_total(&b1, &self.balances, to, new_to_balance);
        }
        Ok(())
    }

    /// Owner only: replaces the minimum amount and the fee rate that are given.
    pub fn update_config(
        &mut self,
        caller: AccountId,
        min_mint_amount: Option<u128>,
        relayer_fee_bps: Option<u32>,
    ) -> (r: Result<(), BridgeError>)
        requires
            old(self).wf(),
        ensures
            final(self).wf(),
            (final(self)@, r) == update_config_outcome(
                old(self)@,
                caller,
                min_mint_amount,
                relayer_fee_bps,
            ),
    {
        if !digest_eq(&caller, &self.owner) {
            return Err(BridgeError::Unauthorized);
        }
        if let Some(min_amount) = min_mint_amount {
            self.min_mint_amount = min_amount;
        }
        if let Some(fee) = relayer_fee_bps {
            self.relayer_fee_bps = fee;
        }
        Ok(())
    }

    /// Owner only: sets the pause flag.
    pub fn set_paused(&mut self, caller: AccountId, paused: bool) -> (r: Result<(), BridgeError>)
        requires
            old(self).wf(),
        ensures
            final(self).wf(),
            (final(self)@, r) == set_paused_outcome(old(self)@, caller, paused),
    {
        if !digest_eq(&caller, &self.owner) {
            return Err(BridgeError::Unauthorized);
        }
        self.paused = paused;
        Ok(())
    }

    /// Owner only: hands the ledger to `new_owner` in one step.
    pub fn transfer_ownership(&mut self, caller: AccountId, new_owner: AccountId) -> (r: Result<
        (),
        BridgeError,
    >)
        requires
            old(self).wf(),
        ensures
            final(self).wf(),
            (final(self)@, r) == transfer_ownership_outcome(old(self)@, caller, new_owner),
    {
        if !digest_eq(&caller, &self.owner) {
            return Err(BridgeError::Unauthorized);
        }
        self.owner = new_owner;
        Ok(())
    }

    /// Balance of `account`; zero when it holds none.
    pub fn balance_of(&self, account: AccountId) -> (r: u128)
        requires
            self.wf(),
        ensures
            r == self@.balance(account),
    {
        self.balance_get(&account)
    }

    /// Whether `nullifier_hash` has been consumed.
    pub fn is_nullifier_used(&self, nullifier_hash: Digest) -> (r: bool)
        requires
            self.wf(),
        ensures
            r == self@.nullifiers.contains(nullifier_hash),
    {
        self.nullifiers.contains(&nullifier_hash)
    }

    /// The record kept for `commitment_hash`, if any.
    pub fn get_commitment(&self, commitment_hash: Digest) -> (r: Option<BridgeCommitment>)
        requires
            self.wf(),
        ensures
            r == if self@.commitments.contains_key(commitment_hash) {
                Some(self@.commitments[commitment_hash])
            } else {
                None::<BridgeCommitment>
            },
    {
        self.commitments.get(&commitment_hash)
    }

    pub fn get_total_minted(&self) -> (r: u128)
        ensures
            r == self@.total_minted,
    {
        self.total_minted
    }

    pub fn get_total_burned(&self) -> (r: u128)
        ensures
            r == self@.total_burned,
    {
        self.total_burned
    }

    pub fn get_owner(&self) -> (r: AccountId)
        ensures
            r == self@.owner,
    {
        self.owner
    }

    pub fn get_min_mint_amount(&self) -> (r: u128)
        ensures
            r == self@.min_mint_amount,
    {
        self.min_mint_amount
    }

    pub fn get_relayer_fee_bps(&self) -> (r: u32)
        ensures
            r == self@.relayer_fee_bps,
    {
        self.relayer_fee_bps
    }

    pub fn is_paused(&self) -> (r: bool)
        ensures
            r == self@.paused,
    {
        self.paused
    }

    /// Every record published so far, oldest first.
    pub fn events(&self) -> (r: &Vec<MintEvent>)
        ensures
            r@ == self@.events,
    {
        &self.events
    }
}

} // verus!

verus! {

/// A call on the mint ledger, as the abstract state machine sees it.
pub ghost enum MintCall {
    Mint {
        proof: Seq<u8>,
        commitment_hash: Digest,
        nullifier_hash: Digest,
        recipient: AccountId,
        amount: u128,
        source_chain: u32,
        now: u64,
    },
    Burn { caller: AccountId, amount: u128, destination_commitment: Digest },
    Transfer { caller: AccountId, to: AccountId, amount: u128 },
    UpdateConfig { caller: AccountId, min_mint_amount: Option<u128>, relayer_fee_bps: Option<u32> },
    SetPaused { caller: AccountId, paused: bool },
    TransferOwnership { caller: AccountId, new_owner: AccountId },
}

/// Outcome of one call, exactly as the ledger's methods produce it.
pub open spec fn apply_mint_call(s: MintState, c: MintCall) -> (MintState, Result<(), BridgeError>) {
    match c {
        MintCall::Mint {
            proof,
            commitment_hash,
            nullifier_hash,
            recipient,
            amount,
            source_chain,
            now,
        } => mint_outcome(
            s,
            proof,
            commitment_hash,
            nullifier_hash,
            recipient,
            blake2x256_of(recipient@),
            amount,
            source_chain,
            now,
        ),
        MintCall::Burn { caller, amount, destination_commitment } => burn_outcome(
            s,
            caller,
            amount,
            destination_commitment,
        ),
        MintCall::Transfer { caller, to, amount } => transfer_outcome(s, caller, to, amount),
        MintCall::UpdateConfig { caller, min_mint_amount, relayer_fee_bps } => update_config_outcome(
            s,
            caller,
            min_mint_amount,
            relayer_fee_bps,
        ),
        MintCall::SetPaused { caller, paused } => set_paused_outcome(s, caller, paused),
        MintCall::TransferOwnership { caller, new_owner } => transfer_ownership_outcome(
            s,
            caller,
            new_owner,
        ),
    }
}

/// State after a sequence of calls, whatever each of them returned.
pub open spec fn run_mint_calls(s: MintState, calls: Seq<MintCall>) -> MintState
    decreases calls.len(),
{
    if calls.len() == 0 {
        s
    } else {
        run_mint_calls(apply_mint_call(s, calls[0]).0, calls.drop_first())
    }
}

/// Balances add up to the total minted less the total burned in every
/// well-formed mint ledger; every method keeps the ledger well formed.
pub proof fn lemma_conservation(b: &PolkadotBridgeComplete)
    requires
        b.wf(),
    ensures
        b.balance_sum() == b@.total_minted - b@.total_burned,
{
}

/// A consumed nullifier stays consumed through any call.
pub proof fn lemma_call_keeps_nullifiers(s: MintState, c: MintCall)
    ensures
        s.nullifiers.subset_of(apply_mint_call(s, c).0.nullifiers),
{
}

/// A consumed nullifier stays consumed through any sequence of calls.
pub proof fn lemma_run_keeps_nullifiers(s: MintState, calls: Seq<MintCall>)
    ensures
        s.nullifiers.subset_of(run_mint_calls(s, calls).nullifiers),
    decreases calls.len(),
{
    if calls.len() > 0 {
        lemma_call_keeps_nullifiers(s, calls[0]);
        lemma_run_keeps_nullifiers(apply_mint_call(s, calls[0]).0, calls.drop_first());
    }
}

/// No double spend: after a mint with a nullifier has succeeded, whatever
/// calls follow, a further mint with that nullifier fails and changes nothing;
/// once the pause and minimum-amount checks pass, it fails with `NullifierUsed`.
pub proof fn lemma_no_double_mint(s: MintState, first: MintCall, between: Seq<MintCall>, second: MintCall)
    requires
        first is Mint,
        second is Mint,
        second->Mint_nullifier_hash == first->Mint_nullifier_hash,
        apply_mint_call(s, first).1 is Ok,
    ensures
        ({
            let t = run_mint_calls(apply_mint_call(s, first).0, between);
            let (u, r) = apply_mint_call(t, second);
            &&& r is Err
            &&& u == t
            &&& (!t.paused && second->Mint_amount >= t.min_mint_amount) ==> r == Err::<(), BridgeError>(
                BridgeError::NullifierUsed,
            )
        }),
{
    lemma_run_keeps_nullifiers(apply_mint_call(s, first).0, between);
}

/// With a zero fee rate a successful mint credits the full amount, and the
/// fee is zero for every amount.
pub proof fn lemma_zero_fee_mints_full_amount(
    s: MintState,
    proof: Seq<u8>,
    commitment_hash: Digest,
    nullifier_hash: Digest,
    recipient: AccountId,
    recipient_hash: Digest,
    amount: u128,
    source_chain: u32,
    now: u64,
)
    requires
        s.relayer_fee_bps == 0,
    ensures
        fee_of(amount, 0) == 0,
        mint_amount_of(amount, 0) == amount,
        ({
            let (t, r) = mint_outcome(
                s,
                proof,
                commitment_hash,
                nullifier_hash,
                recipient,
                recipient_hash,
                amount,
                source_chain,
                now,
            );
            r is Ok ==> t.balance(recipient) == s.balance(recipient) + amount && t.total_minted
                == s.total_minted + amount
        }),
{
}

/// A fee rate of at most 10000 basis points never takes more than the
/// amount, so the fee subtraction cannot fail.
pub proof fn lemma_fee_within_amount(amount: u128, fee_bps: u32)
    requires
        fee_bps <= 10000,
    ensures
        0 <= fee_of(amount, fee_bps) <= amount,
        0 <= mint_amount_of(amount, fee_bps) <= amount,
{
    assert(0 <= (amount * fee_bps) / 10000 <= amount) by (nonlinear_arith)
        requires
            fee_bps <= 10000,
            amount >= 0,
    ;
}

/// While paused, minting and burning fail with `ContractPaused` and change
/// nothing.
pub proof fn lemma_pause_gate(s: MintState, c: MintCall)
    requires
        s.paused,
        c is Mint || c is Burn,
    ensures
        apply_mint_call(s, c) == (s, Err::<(), BridgeError>(BridgeError::ContractPaused)),
{
}

} // verus!
