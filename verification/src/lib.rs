//! Campaign-funding ledger: pooled-contribution campaigns with per-contributor
//! balances, proposal-and-vote governed withdrawal, and an append-only update
//! log. The host environment supplies durable keyed records, transaction
//! atomicity, signature checks, and the token-transfer primitive; this crate
//! holds the account state-transition logic and its proofs.

pub mod accounts;
pub mod authority;
pub mod errors;
pub mod laws;
pub mod ops;
