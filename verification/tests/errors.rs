//! The sentences that describe the errors.

use transactions_engine::TransactionError;

#[test]
fn every_error_has_its_sentence() {
    assert_eq!(
        "Given transaction is already under dispute.",
        TransactionError::DisputeAlreadyExists.message()
    );
    assert_eq!("Given clientId does not have funds.", TransactionError::InsufficientFunds.message());
    assert_eq!("Given transaction type is invalid", TransactionError::InvalidOperation.message());
    assert_eq!(
        "Given clientId does not have an account.",
        TransactionError::InvalidAccount.message()
    );
    assert_eq!(
        "Give transaction record does not have the amount specified.",
        TransactionError::MissingAmount.message()
    );
    assert_eq!("Given transaction does not exist.", TransactionError::MissingTransaction.message());
    assert_eq!(
        "Given account is locked, due to which the transaction has been declined.",
        TransactionError::LockedAccount.message()
    );
    assert_eq!(
        "Given transaction is not currently under dispute.",
        TransactionError::TransactionNotDisputed.message()
    );
}

#[test]
fn errors_compare_by_variant() {
    assert_eq!(TransactionError::LockedAccount, TransactionError::LockedAccount);
    assert_ne!(TransactionError::LockedAccount, TransactionError::InvalidAccount);
}
