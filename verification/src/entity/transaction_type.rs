//! The kinds of transaction.

use vstd::prelude::*;

verus! {

/// The operations that a record can ask for.
#[allow(non_camel_case_types)]
#[derive(Clone, Copy, Debug, PartialEq, Eq)]
pub enum TransactionType {
    /// Adds money to the client's account, opening the account if there is none.
    DEPOSIT,
    /// Takes money from the account, if that much is available.
    WITHDRAWAL,
    /// Puts the amount of an earlier deposit or withdrawal on hold.
    DISPUTE,
    /// Ends a dispute and releases the amount on hold.
    RESOLVE,
    /// Ends a dispute by reversing the transaction, and locks the account.
    CHARGEBACK,
}

} // verus!
