//! The reasons for which a transaction is declined.

use vstd::prelude::*;
use vstd::string::StringExecFns;

verus! {

/// Why a single transaction was declined. A declined transaction changes nothing.
#[derive(Clone, Copy, Debug, PartialEq, Eq)]
pub enum TransactionError {
    /// A dispute was requested for a transaction that is already under dispute.
    DisputeAlreadyExists,
    /// A withdrawal or a dispute would take the available balance below zero.
    InsufficientFunds,
    /// The settlement of a dispute was asked for with a transaction type that is
    /// neither a resolution nor a chargeback.
    InvalidOperation,
    /// The client has not opened an account yet.
    InvalidAccount,
    /// A deposit or a withdrawal came without an amount.
    MissingAmount,
    /// The transaction referred to is unknown, or belongs to another client.
    MissingTransaction,
    /// The client's account is locked.
    LockedAccount,
    /// A resolution or a chargeback was requested for a transaction that is not
    /// under dispute.
    TransactionNotDisputed,
}

impl TransactionError {
    /// The sentence that describes the error.
    pub open spec fn text(self) -> Seq<char> {
        match self {
            TransactionError::DisputeAlreadyExists => "Given transaction is already under dispute."@,
            TransactionError::InsufficientFunds => "Given clientId does not have funds."@,
            TransactionError::InvalidOperation => "Given transaction type is invalid"@,
            TransactionError::InvalidAccount => "Given clientId does not have an account."@,
            TransactionError::MissingAmount => "Give transaction record does not have the amount specified."@,
            TransactionError::MissingTransaction => "Given transaction does not exist."@,
            TransactionError::LockedAccount => "Given account is locked, due to which the transaction has been declined."@,
            TransactionError::TransactionNotDisputed => "Given transaction is not currently under dispute."@,
        }
    }

    /// Returns the sentence that describes the error.
    pub fn message(&self) -> (s: String)
        ensures
            s@ == self.text(),
    {
        match self {
            TransactionError::DisputeAlreadyExists => String::from_str("Given transaction is already under dispute."),
            TransactionError::InsufficientFunds => String::from_str("Given clientId does not have funds."),
            TransactionError::InvalidOperation => String::from_str("Given transaction type is invalid"),
            TransactionError::InvalidAccount => String::from_str("Given clientId does not have an account."),
            TransactionError::MissingAmount => String::from_str("Give transaction record does not have the amount specified."),
            TransactionError::MissingTransaction => String::from_str("Given transaction does not exist."),
            TransactionError::LockedAccount => String::from_str("Given account is locked, due to which the transaction has been declined."),
            TransactionError::TransactionNotDisputed => String::from_str("Given transaction is not currently under dispute."),
        }
    }
}

} // verus!
