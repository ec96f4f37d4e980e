//! A transaction engine: a stream of deposits, withdrawals, disputes, resolutions and
//! chargebacks is applied, one record at a time, to a set of per-client accounts.
//!
//! Money is held in fixed point: every amount is a signed count of ten-thousandths of
//! the currency unit, so `15_000` stands for `1.5000`.
//!
//! The executable [`TransactionService`] is specified against a mathematical model,
//! [`Ledger`], whose transition function says for every record whether it is accepted
//! and what the ledgers hold afterwards.

pub mod amount;
pub mod entity;
pub mod error;
pub mod service;
pub mod traits;

pub use amount::{format_amount, SCALE};
pub use entity::{Account, AccountView, EntryView, TransactionEntry, TransactionRecord, TransactionType};
pub use error::TransactionError;
pub use service::{Ledger, TransactionService};
pub use traits::Transaction;
