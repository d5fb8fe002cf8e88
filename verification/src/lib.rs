//! A small transaction-processing library: per-client account state machines
//! (deposits, withdrawals, disputes, resolves, chargebacks) and the ledger
//! that routes a stream of transactions to them.

pub mod amount;
pub mod app_state;
pub mod client;
pub mod errors;
pub mod transaction;

mod dispute_set;
