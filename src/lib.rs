//! Core of a lock-mint / burn-unlock bridge between two ledgers.
//!
//! The lock ledger escrows value under a commitment hash and releases it on a
//! valid proof or refunds it after a timeout; the mint ledger mints a wrapped
//! balance exactly once per nullifier and burns it for the reverse direction.
//! Both consult the same proof gate before any state changes.

pub mod digest;
mod table;
pub mod proof_gate;
pub mod mint_ledger;
pub mod lock_ledger;
pub mod counter;
pub mod escrow;
