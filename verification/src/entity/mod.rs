//! The values that the engine works on: accounts, incoming records, retained entries.

pub mod account;
pub mod transaction_record;
pub mod transaction_type;

pub use account::{Account, AccountView};
pub use transaction_record::{EntryView, TransactionEntry, TransactionRecord};
pub use transaction_type::TransactionType;
