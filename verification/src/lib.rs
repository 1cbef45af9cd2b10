//! Core of a token-dispensing service ("faucet") for a blockchain test
//! network: given a recipient address it validates eligibility against live
//! chain state, plans a value-transfer transaction from an operator wallet,
//! and reports either the transaction hash or a structured error.
//!
//! The dispense workflow is a state machine ([`flow::Dispense`]): each remote
//! chain query is an [`flow::Action`] that the surrounding server performs,
//! and its outcome comes back as a [`flow::ChainEvent`]. Every decision the
//! service makes — address validation, balance checks, transaction assembly,
//! error mapping — lives here and carries a contract.

pub mod addr;
pub mod config;
pub mod error;
pub mod flow;
pub mod health;
pub mod laws;
pub mod wei;
