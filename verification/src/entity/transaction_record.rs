//! Incoming records and the entries retained of them.

use vstd::prelude::*;
use super::transaction_type::TransactionType;

verus! {

/// One transaction as it arrives.
#[derive(Clone, Copy, Debug)]
pub struct TransactionRecord {
    /// What is asked for.
    pub _type: TransactionType,
    /// The client that the transaction belongs to.
    pub client: u16,
    /// The identifier of the transaction: its own for a deposit or a withdrawal,
    /// that of the transaction referred to for the other three.
    pub tx: u32,
    /// The amount in ten-thousandths. A deposit or a withdrawal needs one; the
    /// other three do not read it.
    pub amount: Option<i64>,
}

/// What is kept of a deposit or a withdrawal, so that it can be disputed later.
#[derive(Clone, Copy, Debug)]
pub struct TransactionEntry {
    /// The client that made the transaction.
    pub client: u16,
    /// The signed amount in ten-thousandths: positive as deposited, negated for a
    /// withdrawal.
    pub amount: i64,
}

/// A retained entry as a mathematical value.
pub struct EntryView {
    /// The client that made the transaction.
    pub client: u16,
    /// The signed amount in ten-thousandths.
    pub amount: int,
}

impl View for TransactionEntry {
    type V = EntryView;

    /// The same entry, its amount taken as an integer.
    open spec fn view(&self) -> EntryView {
        EntryView { client: self.client, amount: self.amount as int }
    }
}

} // verus!
