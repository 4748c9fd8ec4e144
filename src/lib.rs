//! A custodial dice-wagering engine: configuration, bet validation, outcome
//! derivation and the stake-and-payout settlement, each with a verified contract.

pub mod error;
pub mod ledger;
pub mod identity;
pub mod outcome;
pub mod config;
pub mod engine;
pub mod laws;
