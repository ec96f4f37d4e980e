//! The five transitions of an account, and its line in a report.

use transactions_engine::Account;

fn sample() -> Account {
    Account { client: 7, available: 50_000, held: 20_000, total: 70_000, locked: false }
}

#[test]
fn deposit_adds_to_available_and_total() {
    let before = sample();
    let after = before.deposit(12_500);
    assert_eq!(
        Account { client: 7, available: 62_500, held: 20_000, total: 82_500, locked: false },
        after
    );
    assert_eq!(sample(), before);
}

#[test]
fn withdrawal_takes_from_available_and_total() {
    let after = sample().withdrawal(12_500);
    assert_eq!(
        Account { client: 7, available: 37_500, held: 20_000, total: 57_500, locked: false },
        after
    );
}

#[test]
fn withdrawal_does_not_check_the_balance() {
    let after = sample().withdrawal(60_000);
    assert_eq!(-10_000, after.available);
    assert_eq!(10_000, after.total);
    assert_eq!(20_000, after.held);
}

#[test]
fn dispute_moves_from_available_to_held() {
    let after = sample().dispute(12_500);
    assert_eq!(
        Account { client: 7, available: 37_500, held: 32_500, total: 70_000, locked: false },
        after
    );
}

#[test]
fn resolve_moves_from_held_to_available() {
    let after = sample().resolve(12_500);
    assert_eq!(
        Account { client: 7, available: 62_500, held: 7_500, total: 70_000, locked: false },
        after
    );
}

#[test]
fn resolve_undoes_dispute() {
    assert_eq!(sample(), sample().dispute(33_333).resolve(33_333));
}

#[test]
fn chargeback_takes_from_held_and_total_and_locks() {
    let after = sample().chargeback(12_500);
    assert_eq!(
        Account { client: 7, available: 50_000, held: 7_500, total: 57_500, locked: true },
        after
    );
}

#[test]
fn transitions_do_not_look_at_the_lock() {
    let locked = Account { locked: true, ..sample() };
    assert_eq!(60_000, locked.deposit(10_000).available);
    assert!(locked.deposit(10_000).locked);
    assert!(locked.resolve(10_000).locked);
}

#[test]
fn transitions_keep_total_equal_to_available_plus_held() {
    let start = sample();
    let steps = [
        start.deposit(1),
        start.withdrawal(49_999),
        start.dispute(50_000),
        start.resolve(20_000),
        start.chargeback(20_000),
        start.deposit(-3),
        start.dispute(-7),
    ];
    for account in steps {
        assert_eq!(account.total, account.available + account.held);
        assert_eq!(7, account.client);
    }
}

#[test]
fn print_renders_one_report_line() {
    assert_eq!("7,5.0000,2.0000,7.0000,false", sample().print());
    let locked = Account { client: 65_535, available: -1, held: 0, total: -1, locked: true };
    assert_eq!("65535,-0.0001,0.0000,-0.0001,true", locked.print());
    let fresh = Account { client: 0, available: 0, held: 0, total: 0, locked: false };
    assert_eq!("0,0.0000,0.0000,0.0000,false", fresh.print());
}
