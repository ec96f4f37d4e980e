//! What holds of the model whatever the records are.

use vstd::prelude::*;
use crate::entity::account::AccountView;
use crate::entity::transaction_record::TransactionRecord;
use crate::entity::transaction_type::TransactionType;
use crate::error::TransactionError;
use crate::service::ledger::{client_count, Ledger};

verus! {

/// The empty state is well formed.
pub proof fn empty_is_wf()
    ensures
        Ledger::empty().wf(),
{
}

/// A single operation keeps the state well formed, whether it accepts the record or
/// declines it. In particular every account keeps a total that is the sum of its
/// available and held balances.
pub proof fn operation_preserves_wf(state: Ledger, kind: TransactionType, record: TransactionRecord)
    requires
        state.wf(),
    ensures
        state.operation_step(kind, record).wf(),
{
}

/// A record keeps the state well formed, whether it is accepted or declined.
pub proof fn step_preserves_wf(state: Ledger, record: TransactionRecord)
    requires
        state.wf(),
    ensures
        state.step(record).wf(),
{
    if state.outcome(record) is Ok {
        operation_preserves_wf(state, record._type, record);
    }
}

/// After any sequence of records the state is well formed.
pub proof fn run_preserves_wf(state: Ledger, records: Seq<TransactionRecord>)
    requires
        state.wf(),
    ensures
        state.run(records).wf(),
    decreases records.len(),
{
    if records.len() > 0 {
        run_preserves_wf(state, records.drop_last());
        step_preserves_wf(state.run(records.drop_last()), records.last());
    }
}

/// At every point of every run from the empty state, the total of every account is
/// the sum of its available and held balances.
pub proof fn totals_always_balance(records: Seq<TransactionRecord>, client: u16)
    requires
        Ledger::empty().run(records).accounts.contains_key(client),
    ensures
        Ledger::empty().run(records).accounts[client].total == Ledger::empty().run(
            records,
        ).accounts[client].available + Ledger::empty().run(records).accounts[client].held,
{
    run_preserves_wf(Ledger::empty(), records);
}

/// A declined record changes nothing.
pub proof fn declined_record_changes_nothing(state: Ledger, record: TransactionRecord)
    requires
        state.outcome(record) is Err,
    ensures
        state.step(record) == state,
{
}

/// A record touches no account but that of its own client.
pub proof fn step_leaves_other_clients_alone(state: Ledger, record: TransactionRecord, client: u16)
    requires
        client != record.client,
    ensures
        state.step(record).accounts.contains_key(client) == state.accounts.contains_key(client),
        state.step(record).accounts[client] == state.accounts[client],
{
}

/// A second deposit under a transaction identifier that is in use is accepted like
/// any other: the balance grows by its amount, and the entry retained under that
/// identifier is replaced by the new one.
pub proof fn deposit_replaces_entry(state: Ledger, record: TransactionRecord)
    requires
        record._type is DEPOSIT,
        record.amount is Some,
        !state.locked(record.client),
    ensures
        state.outcome(record) is Ok,
        state.step(record).transactions[record.tx].client == record.client,
        state.step(record).transactions[record.tx].amount == record.amount.unwrap(),
        state.accounts.contains_key(record.client) ==> state.step(record).accounts[record.client]
            == state.accounts[record.client].deposit(record.amount.unwrap() as int),
        !state.accounts.contains_key(record.client) ==> state.step(
            record,
        ).accounts[record.client] == AccountView::opened(
            record.client,
            record.amount.unwrap() as int,
        ),
{
}

/// A withdrawal with an amount for a client without an account is declined for
/// want of the account.
pub proof fn withdrawal_needs_account(state: Ledger, record: TransactionRecord)
    requires
        record._type is WITHDRAWAL,
        record.amount is Some,
        !state.accounts.contains_key(record.client),
    ensures
        state.outcome(record) == Err::<(), TransactionError>(TransactionError::InvalidAccount),
        state.step(record) == state,
{
}

/// A withdrawal of more than is available is declined for want of funds, and
/// leaves the state as it was.
pub proof fn withdrawal_needs_funds(state: Ledger, record: TransactionRecord)
    requires
        record._type is WITHDRAWAL,
        record.amount is Some,
        state.accounts.contains_key(record.client),
        !state.locked(record.client),
        record.amount.unwrap() > state.accounts[record.client].available,
    ensures
        state.outcome(record) == Err::<(), TransactionError>(TransactionError::InsufficientFunds),
        state.step(record) == state,
{
}

/// A dispute over a transaction that is not retained is declined as missing.
pub proof fn dispute_needs_transaction(state: Ledger, record: TransactionRecord)
    requires
        state.wf(),
        record._type is DISPUTE,
        !state.locked(record.client),
        !state.transactions.contains_key(record.tx),
    ensures
        state.outcome(record) == Err::<(), TransactionError>(TransactionError::MissingTransaction),
        state.step(record) == state,
{
}

/// A dispute over a transaction of another client, not under dispute already, is
/// declined as missing.
pub proof fn dispute_needs_own_transaction(state: Ledger, record: TransactionRecord)
    requires
        record._type is DISPUTE,
        !state.locked(record.client),
        state.transactions.contains_key(record.tx),
        state.transactions[record.tx].client != record.client,
        !state.disputes.contains(record.tx),
    ensures
        state.outcome(record) == Err::<(), TransactionError>(TransactionError::MissingTransaction),
        state.step(record) == state,
{
}

/// An accepted dispute moves the amount of the disputed entry from the available
/// balance to the held one, leaves the total and the lock alone, and opens the
/// dispute.
pub proof fn dispute_holds_amount(state: Ledger, record: TransactionRecord)
    requires
        record._type is DISPUTE,
        state.outcome(record) is Ok,
    ensures
        ({
            let before = state.accounts[record.client];
            let after = state.step(record).accounts[record.client];
            let amount = state.transactions[record.tx].amount;
            &&& after.available == before.available - amount
            &&& after.held == before.held + amount
            &&& after.total == before.total
            &&& after.locked == before.locked
            &&& after.available >= 0
        }),
        state.step(record).disputes.contains(record.tx),
        state.step(record).transactions == state.transactions,
{
}

/// An accepted resolution undoes the hold exactly: the amount of the disputed entry
/// returns from the held balance to the available one, the total and the lock stay,
/// and the dispute is closed.
pub proof fn resolve_releases_amount(state: Ledger, record: TransactionRecord)
    requires
        record._type is RESOLVE,
        state.outcome(record) is Ok,
    ensures
        ({
            let before = state.accounts[record.client];
            let after = state.step(record).accounts[record.client];
            let amount = state.transactions[record.tx].amount;
            &&& after.available == before.available + amount
            &&& after.held == before.held - amount
            &&& after.total == before.total
            &&& after.locked == before.locked
        }),
        !state.step(record).disputes.contains(record.tx),
        state.step(record).transactions == state.transactions,
{
}

/// A dispute followed at once by its resolution leaves the account as it was.
pub proof fn resolve_undoes_dispute(state: Ledger, dispute: TransactionRecord, resolve: TransactionRecord)
    requires
        dispute._type is DISPUTE,
        resolve._type is RESOLVE,
        resolve.client == dispute.client,
        resolve.tx == dispute.tx,
        state.outcome(dispute) is Ok,
    ensures
        state.step(dispute).outcome(resolve) is Ok,
        state.step(dispute).step(resolve).accounts[dispute.client]
            == state.accounts[dispute.client],
        state.step(dispute).step(resolve).disputes.contains(dispute.tx) == false,
{
}

/// An accepted chargeback takes the amount of the disputed entry from the held
/// balance and from the total, leaves the available balance alone, locks the
/// account, and closes the dispute.
pub proof fn chargeback_reverses_and_locks(state: Ledger, record: TransactionRecord)
    requires
        record._type is CHARGEBACK,
        state.outcome(record) is Ok,
    ensures
        ({
            let before = state.accounts[record.client];
            let after = state.step(record).accounts[record.client];
            let amount = state.transactions[record.tx].amount;
            &&& after.available == before.available
            &&& after.held == before.held - amount
            &&& after.total == before.total - amount
            &&& after.locked
        }),
        state.step(record).locked(record.client),
        !state.step(record).disputes.contains(record.tx),
        state.step(record).transactions == state.transactions,
{
}

/// A resolution or a chargeback of a transaction that is not under dispute is
/// declined as not disputed.
pub proof fn settlement_needs_dispute(state: Ledger, record: TransactionRecord)
    requires
        record._type is RESOLVE || record._type is CHARGEBACK,
        !state.locked(record.client),
        !state.disputes.contains(record.tx),
    ensures
        state.outcome(record) == Err::<(), TransactionError>(
            TransactionError::TransactionNotDisputed,
        ),
        state.step(record) == state,
{
}

/// A locked account declines every record of its client, whatever the type, and
/// nothing changes.
pub proof fn locked_account_declines_everything(state: Ledger, record: TransactionRecord)
    requires
        state.locked(record.client),
    ensures
        state.outcome(record) == Err::<(), TransactionError>(TransactionError::LockedAccount),
        state.step(record) == state,
{
}

/// No record unlocks an account, and none changes a locked one.
pub proof fn step_keeps_lock(state: Ledger, record: TransactionRecord, client: u16)
    requires
        state.locked(client),
    ensures
        state.step(record).locked(client),
        state.step(record).accounts[client] == state.accounts[client],
{
}

/// A lock is permanent: after any further records the account is still locked, with
/// the balances it had when it was locked.
pub proof fn lock_is_permanent(state: Ledger, records: Seq<TransactionRecord>, client: u16)
    requires
        state.locked(client),
    ensures
        state.run(records).locked(client),
        state.run(records).accounts[client] == state.accounts[client],
    decreases records.len(),
{
    if records.len() > 0 {
        lock_is_permanent(state, records.drop_last(), client);
        step_keeps_lock(state.run(records.drop_last()), records.last(), client);
    }
}

/// Only a chargeback locks an account.
pub proof fn only_chargeback_locks(state: Ledger, record: TransactionRecord, client: u16)
    requires
        !state.locked(client),
        state.step(record).locked(client),
    ensures
        record._type is CHARGEBACK,
        record.client == client,
        state.outcome(record) is Ok,
{
}

/// A retained entry is never removed, and an account is never closed.
pub proof fn step_keeps_entries_and_accounts(state: Ledger, record: TransactionRecord)
    ensures
        forall|tx: u32| #[trigger]
            state.transactions.contains_key(tx) ==> state.step(record).transactions.contains_key(
                tx,
            ),
        forall|client: u16| #[trigger]
            state.accounts.contains_key(client) ==> state.step(record).accounts.contains_key(
                client,
            ),
{
}

/// The accounts listed below a bound are those of the clients below it, each once
/// and in ascending order of client.
pub proof fn accounts_below_is_sorted_and_complete(state: Ledger, bound: nat)
    requires
        state.wf(),
        bound <= client_count(),
    ensures
        forall|i: int|
            0 <= i < state.accounts_below(bound).len() ==> {
                let account = #[trigger] state.accounts_below(bound)[i];
                &&& account.client < bound
                &&& state.accounts.contains_key(account.client)
                &&& state.accounts[account.client] == account
            },
        forall|i: int, j: int|
            0 <= i < j < state.accounts_below(bound).len() ==> (#[trigger] state.accounts_below(
                bound,
            )[i]).client < (#[trigger] state.accounts_below(bound)[j]).client,
        forall|client: u16|
            client < bound && #[trigger] state.accounts.contains_key(client)
                ==> state.accounts_below(bound).contains(state.accounts[client]),
    decreases bound,
{
    if bound > 0 {
        let before = state.accounts_below((bound - 1) as nat);
        let last = (bound - 1) as u16;
        accounts_below_is_sorted_and_complete(state, (bound - 1) as nat);
        let now = state.accounts_below(bound);
        if state.accounts.contains_key(last) {
            assert forall|client: u16|
                client < bound && #[trigger] state.accounts.contains_key(
                    client,
                ) implies now.contains(state.accounts[client]) by {
                if client == last {
                    assert(now[now.len() - 1] == state.accounts[client]);
                } else {
                    let i = choose|i: int| 0 <= i < before.len() && before[i] == state.accounts[client];
                    assert(now[i] == state.accounts[client]);
                }
            }
        }
    }
}

/// The roster holds every account exactly once, in ascending order of client, and
/// nothing else.
pub proof fn roster_is_sorted_and_complete(state: Ledger)
    requires
        state.wf(),
    ensures
        forall|i: int|
            0 <= i < state.roster().len() ==> {
                let account = #[trigger] state.roster()[i];
                &&& state.accounts.contains_key(account.client)
                &&& state.accounts[account.client] == account
            },
        forall|i: int, j: int|
            0 <= i < j < state.roster().len() ==> (#[trigger] state.roster()[i]).client < (
            #[trigger] state.roster()[j]).client,
        forall|client: u16| #[trigger]
            state.accounts.contains_key(client) ==> state.roster().contains(
                state.accounts[client],
            ),
{
    accounts_below_is_sorted_and_complete(state, client_count());
}

} // verus!
