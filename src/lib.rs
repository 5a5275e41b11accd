//! Client-side logic for a program-derived greeting counter on a Solana
//! ledger: deterministic account derivation, funding decisions, idempotent
//! account creation, the increment instruction and the counter layout.
//!
//! Talking to the ledger is left to the caller: each step here takes what
//! the ledger answered and says what to do next.

pub mod error;
pub mod codec;
pub mod address;
pub mod config;
pub mod funding;
pub mod account;
pub mod dispatch;
pub mod session;
