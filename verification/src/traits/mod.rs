//! Behaviour shared by transaction processors.

pub mod transaction;

pub use transaction::Transaction;
