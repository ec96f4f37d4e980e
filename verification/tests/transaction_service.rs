//! The engine driven record by record. Amounts are in ten-thousandths: `15_000` is 1.5000.

use transactions_engine::{
    format_amount, TransactionError, TransactionRecord, TransactionService, TransactionType,
};

#[test]
fn should_be_able_to_deposit_funds() {
    let mut service: TransactionService = Default::default();
    let record1 = TransactionRecord {
        _type: TransactionType::DEPOSIT,
        client: 1,
        tx: 1,
        amount: Some(15_000),
    };

    let result1 = service.process(record1);

    assert_eq!(Ok(()), result1);
    assert_eq!(15_000, service.account(1).unwrap().available);
    assert_eq!(15_000, service.account(1).unwrap().total);

    let record2 = TransactionRecord {
        _type: TransactionType::DEPOSIT,
        client: 1,
        tx: 1,
        amount: Some(30_000),
    };

    let result2 = service.process(record2);

    assert_eq!(Ok(()), result2);
    assert_eq!(45_000, service.account(1).unwrap().available);
    assert_eq!(45_000, service.account(1).unwrap().total);
}

#[test]
fn should_be_able_to_withdraw_from_account_with_funds() {
    let mut service: TransactionService = Default::default();
    let record1 = TransactionRecord {
        _type: TransactionType::DEPOSIT,
        client: 1,
        tx: 1,
        amount: Some(15_000),
    };

    let result1 = service.process(record1);

    assert_eq!(Ok(()), result1);
    assert_eq!(15_000, service.account(1).unwrap().available);
    assert_eq!(15_000, service.account(1).unwrap().total);

    let record2 = TransactionRecord {
        _type: TransactionType::WITHDRAWAL,
        client: 1,
        tx: 1,
        amount: Some(14_000),
    };

    let result2 = service.process(record2);
    assert_eq!(Ok(()), result2);
    assert_eq!("0.1000", format_amount(service.account(1).unwrap().available));
    assert_eq!("0.1000", format_amount(service.account(1).unwrap().total));
    assert_eq!("0.1000", format!("{:.4}", service.account(1).unwrap().available as f64 / 10_000.0));
    assert_eq!("0.1000", format!("{:.4}", service.account(1).unwrap().total as f64 / 10_000.0));
}

#[test]
fn should_error_out_if_funds_are_insufficient() {
    let mut service: TransactionService = Default::default();
    let record1 = TransactionRecord {
        _type: TransactionType::WITHDRAWAL,
        client: 1,
        tx: 1,
        amount: Some(15_000),
    };

    let result1 = service.process(record1);

    assert_eq!(Err(TransactionError::InvalidAccount), result1);

    let record2 = TransactionRecord {
        _type: TransactionType::DEPOSIT,
        client: 1,
        tx: 1,
        amount: Some(14_000),
    };

    let _ = service.process(record2);

    let record3 = TransactionRecord {
        _type: TransactionType::WITHDRAWAL,
        client: 1,
        tx: 1,
        amount: Some(15_000),
    };

    let result3 = service.process(record3);

    assert_eq!(Err(TransactionError::InsufficientFunds), result3);
    assert_eq!(14_000, service.account(1).unwrap().total);
    assert_eq!(14_000, service.account(1).unwrap().available);
}

#[test]
fn should_not_raise_dispute_for_invalid_transactions() {
    let mut service: TransactionService = Default::default();
    let record1 = TransactionRecord {
        _type: TransactionType::DEPOSIT,
        client: 1,
        tx: 1,
        amount: Some(15_000),
    };

    let _ = service.process(record1);

    let record2 = TransactionRecord {
        _type: TransactionType::DISPUTE,
        client: 1,
        tx: 2,
        amount: None,
    };
    let result = service.process(record2);
    assert_eq!(Err(TransactionError::MissingTransaction), result);
}

#[test]
fn should_raise_dispute_for_valid_transaction() {
    let mut service: TransactionService = Default::default();
    let record1 = TransactionRecord {
        _type: TransactionType::DEPOSIT,
        client: 1,
        tx: 1,
        amount: Some(15_000),
    };

    let _ = service.process(record1);

    let record2 = TransactionRecord {
        _type: TransactionType::DISPUTE,
        client: 1,
        tx: 1,
        amount: None,
    };
    let result = service.process(record2);
    assert_eq!(Ok(()), result);
    let acc = service.account(1).unwrap();
    assert_eq!(0, acc.available);
    assert_eq!(15_000, acc.total);
    assert_eq!(15_000, acc.held);
}

#[test]
fn should_resolve_a_valid_dispute() {
    let mut service: TransactionService = Default::default();
    let record1 = TransactionRecord {
        _type: TransactionType::DEPOSIT,
        client: 1,
        tx: 1,
        amount: Some(15_000),
    };

    let _ = service.process(record1);

    let record2 = TransactionRecord {
        _type: TransactionType::DISPUTE,
        client: 1,
        tx: 1,
        amount: None,
    };
    let _ = service.process(record2);

    let record3 = TransactionRecord {
        _type: TransactionType::RESOLVE,
        client: 1,
        tx: 1,
        amount: None,
    };
    let result = service.process(record3);

    assert_eq!(Ok(()), result);
    let acc = service.account(1).unwrap();
    assert_eq!(15_000, acc.available);
    assert_eq!(15_000, acc.total);
    assert_eq!(0, acc.held);
}

#[test]
fn should_not_be_able_raise_a_dispute_if_funds_are_insufficient() {
    let mut service: TransactionService = Default::default();

    let record1 = TransactionRecord {
        _type: TransactionType::DEPOSIT,
        client: 1,
        tx: 1,
        amount: Some(14_000),
    };

    let _ = service.process(record1);

    let record2 = TransactionRecord {
        _type: TransactionType::WITHDRAWAL,
        client: 1,
        tx: 2,
        amount: Some(14_000),
    };

    let _ = service.process(record2);

    let record3 = TransactionRecord {
        _type: TransactionType::DISPUTE,
        client: 1,
        tx: 1,
        amount: None,
    };

    let result = service.process(record3);

    assert_eq!(Err(TransactionError::InsufficientFunds), result);
}

#[test]
fn should_reverse_transaction_for_a_valid_chargeback() {
    let mut service: TransactionService = Default::default();
    let record1 = TransactionRecord {
        _type: TransactionType::DEPOSIT,
        client: 1,
        tx: 1,
        amount: Some(15_000),
    };

    let _ = service.process(record1);

    let record2 = TransactionRecord {
        _type: TransactionType::DISPUTE,
        client: 1,
        tx: 1,
        amount: None,
    };
    let _ = service.process(record2);

    let record3 = TransactionRecord {
        _type: TransactionType::CHARGEBACK,
        client: 1,
        tx: 1,
        amount: None,
    };
    let result = service.process(record3);

    assert_eq!(Ok(()), result);
    let acc = service.account(1).unwrap();
    assert_eq!(0, acc.available);
    assert_eq!(0, acc.total);
    assert_eq!(0, acc.held);
    assert!(acc.locked);
}

#[test]
fn should_not_resolve_a_transaction_which_is_not_in_dispute() {
    let mut service: TransactionService = Default::default();
    let record1 = TransactionRecord {
        _type: TransactionType::DEPOSIT,
        client: 1,
        tx: 1,
        amount: Some(15_000),
    };
    let _ = service.process(record1);

    let record2 = TransactionRecord {
        _type: TransactionType::RESOLVE,
        client: 1,
        tx: 1,
        amount: None,
    };
    let result = service.process(record2);

    assert_eq!(Err(TransactionError::TransactionNotDisputed), result);
}

#[test]
fn should_not_process_transaction_for_a_locked_account() {
    let mut service: TransactionService = Default::default();
    let record1 = TransactionRecord {
        _type: TransactionType::DEPOSIT,
        client: 1,
        tx: 1,
        amount: Some(15_000),
    };
    let _ = service.process(record1);

    let record2 = TransactionRecord {
        _type: TransactionType::DISPUTE,
        client: 1,
        tx: 1,
        amount: None,
    };
    let _ = service.process(record2);

    let record2 = TransactionRecord {
        _type: TransactionType::CHARGEBACK,
        client: 1,
        tx: 1,
        amount: None,
    };
    let _ = service.process(record2);

    let record4 = TransactionRecord {
        _type: TransactionType::DEPOSIT,
        client: 1,
        tx: 1,
        amount: Some(15_000),
    };
    let result = service.process(record4);

    assert_eq!(Err(TransactionError::LockedAccount), result);
}
