//! The state machine and its model.

pub mod ledger;
pub mod theorems;
pub mod transaction_service;

pub use ledger::Ledger;
pub use transaction_service::TransactionService;
