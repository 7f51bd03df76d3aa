//! Verified core of a Cashu wallet: the decisions that the wallet makes when it
//! mints, swaps and keeps its transaction history, stated over plain values.
//!
//! Everything that talks to the mint, to the local store or to the clock is done
//! by the caller, which hands the results to the functions of this crate.

pub mod error;
pub mod types;
pub mod proofs;
pub mod transactions;
pub mod mint;
pub mod mint_flow;
pub mod quote_flow;
pub mod swap;
pub mod swap_flow;
