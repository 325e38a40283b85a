//! Balance ledger and token purchase workflow of the IC Carnage backend.
//!
//! The crate keeps a durable map of in-game credit balances, converts payments
//! into token amounts, and decides, step by step, what to ask of the remote
//! token ledger and what to report back. The remote calls themselves are made
//! by the embedding canister, which feeds each reply back into the workflow.

pub mod bytes;
pub mod catalog;
pub mod error;
pub mod identity;
pub mod ledger;
pub mod orchestrator;
pub mod policy;
pub mod quantity;
pub mod store;
