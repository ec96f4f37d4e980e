//! The engine: three ledgers and the rules by which a record changes them.

use std::collections::{HashMap, HashSet};
use vstd::prelude::*;
use vstd::std_specs::hash::group_hash_axioms;
use vstd::string::StringExecFns;
use crate::entity::account::{Account, AccountView};
use crate::entity::transaction_record::{TransactionEntry, TransactionRecord};
use crate::entity::transaction_type::TransactionType;
use crate::amount::in_range;
use crate::error::TransactionError;
use crate::service::ledger::{report_heading, Ledger};
use crate::traits::transaction::Transaction;

verus! {

broadcast use group_hash_axioms;

/// Applies transactions to accounts, and keeps track of the transactions that can
/// still be disputed and of the disputes that are open.
pub struct TransactionService {
    /// The account of every client that has made a deposit.
    account_ledger: HashMap<u16, Account>,
    /// What is retained of every deposit and withdrawal.
    transaction_ledger: HashMap<u32, TransactionEntry>,
    /// The transactions under open dispute.
    dispute_ledger: HashSet<u32>,
}

impl View for TransactionService {
    type V = Ledger;

    /// The three ledgers as maps and a set of mathematical values.
    closed spec fn view(&self) -> Ledger {
        Ledger {
            accounts: self.account_ledger@.map_values(|account: Account| account@),
            transactions: self.transaction_ledger@.map_values(|entry: TransactionEntry| entry@),
            disputes: self.dispute_ledger@,
        }
    }
}

impl Default for TransactionService {
    /// An engine without accounts, transactions or disputes.
    fn default() -> (service: TransactionService)
        ensures
            service@ == Ledger::empty(),
    {
        TransactionService::new()
    }
}

impl TransactionService {
    /// An engine without accounts, transactions or disputes.
    pub fn new() -> (service: TransactionService)
        ensures
            service@ == Ledger::empty(),
    {
        let service = TransactionService {
            account_ledger: HashMap::new(),
            transaction_ledger: HashMap::new(),
            dispute_ledger: HashSet::new(),
        };
        assert(service@.accounts =~= Map::empty());
        assert(service@.transactions =~= Map::empty());
        service
    }

    /// Applies one record. A record for a locked account is declined whatever it
    /// asks for; any other record goes to the operation that its type names. A
    /// declined record changes nothing.
    ///
    /// The balances that the record makes the engine write must fit the machine
    /// representation; [`TransactionService::within_limits`] tells whether they do,
    /// and [`TransactionService::checked_process`] applies a record only if so.
    pub fn process(&mut self, record: TransactionRecord) -> (res: Result<(), TransactionError>)
        requires
            old(self)@.wf(),
            old(self)@.within_limits(record),
        ensures
            final(self)@.wf(),
            res == old(self)@.outcome(record),
            final(self)@ == old(self)@.step(record),
            res is Err ==> final(self)@ == old(self)@,
    {
        if let Some(account) = self.account_ledger.get(&record.client) {
            if account.locked {
                return Err(TransactionError::LockedAccount);
            }
        }
        match record._type {
            TransactionType::DEPOSIT => self.deposit(record),
            TransactionType::WITHDRAWAL => self.withdrawal(record),
            TransactionType::DISPUTE => self.dispute(record),
            TransactionType::RESOLVE => self.resolve(record),
            TransactionType::CHARGEBACK => self.chargeback(record),
        }
    }

    /// Tells whether every balance that `record` would make the engine write fits
    /// the machine representation. A record that is declined writes nothing, and
    /// is within limits.
    pub fn within_limits(&self, record: &TransactionRecord) -> (ok: bool)
        ensures
            ok == self@.within_limits(*record),
    {
        if let Some(account) = self.account_ledger.get(&record.client) {
            if account.locked {
                return true;
            }
        }
        self.operation_within_limits(record._type, record)
    }

    /// Tells whether every balance that the operation `kind` would write for
    /// `record` fits the machine representation: the condition under which that
    /// operation may be called directly.
    pub fn operation_within_limits(&self, kind: TransactionType, record: &TransactionRecord) -> (ok:
        bool)
        ensures
            ok == self@.operation_fits(kind, *record),
    {
        let account = match self.account_ledger.get(&record.client) {
            Some(account) => account,
            None => {
                // Without an account only a deposit is accepted, and it writes
                // nothing but its own amount.
                return true;
            },
        };
        match kind {
            TransactionType::DEPOSIT => match record.amount {
                Some(amount) => sum_fits(account.available, amount) && sum_fits(
                    account.total,
                    amount,
                ),
                None => true,
            },
            TransactionType::WITHDRAWAL => match record.amount {
                Some(amount) => account.available < amount || (amount != i64::MIN
                    && difference_fits(account.available, amount) && difference_fits(
                    account.total,
                    amount,
                )),
                None => true,
            },
            TransactionType::DISPUTE => {
                if self.dispute_ledger.contains(&record.tx) {
                    return true;
                }
                match self.transaction_ledger.get(&record.tx) {
                    Some(t_entry) => t_entry.client != record.client || account.available
                        < t_entry.amount || (difference_fits(account.available, t_entry.amount)
                        && sum_fits(account.held, t_entry.amount)),
                    None => true,
                }
            },
            TransactionType::RESOLVE | TransactionType::CHARGEBACK => {
                if !self.dispute_ledger.contains(&record.tx) {
                    return true;
                }
                match self.transaction_ledger.get(&record.tx) {
                    Some(t_entry) => t_entry.client != record.client || match record._type {
                        TransactionType::RESOLVE => sum_fits(account.available, t_entry.amount)
                            && difference_fits(account.held, t_entry.amount),
                        TransactionType::CHARGEBACK => difference_fits(
                            account.held,
                            t_entry.amount,
                        ) && difference_fits(account.total, t_entry.amount),
                        _ => true,
                    },
                    None => true,
                }
            },
        }
    }

    /// Applies `record` if what it writes fits the machine representation, and
    /// returns what [`TransactionService::process`] returns; otherwise changes
    /// nothing and returns `None`.
    pub fn checked_process(&mut self, record: TransactionRecord) -> (res: Option<
        Result<(), TransactionError>,
    >)
        requires
            old(self)@.wf(),
        ensures
            final(self)@.wf(),
            res == if old(self)@.within_limits(record) {
                Some(old(self)@.outcome(record))
            } else {
                None
            },
            final(self)@ == if old(self)@.within_limits(record) {
                old(self)@.step(record)
            } else {
                old(self)@
            },
    {
        if self.within_limits(&record) {
            Some(self.process(record))
        } else {
            None
        }
    }

    /// Ends the engine's work and returns the report: the heading, then one line
    /// for each account, in ascending order of client.
    pub fn generate_report(self) -> (report: Vec<String>)
        ensures
            report@.map_values(|line: String| line@) == self@.report(),
    {
        let mut report: Vec<String> = Vec::new();
        report.push(String::from_str("client,available,held,total,locked"));
        let mut client: u32 = 0;
        while client <= 65_535
            invariant
                client <= 65_536,
                report@.map_values(|line: String| line@) == seq![report_heading()]
                    + self@.accounts_below(client as nat).map_values(
                    |account: AccountView| account.line(),
                ),
            decreases 65_536 - client,
        {
            let ghost before = report@;
            let key: u16 = client as u16;
            match self.account_ledger.get(&key) {
                Some(account) => {
                    report.push(account.print());
                    proof {
                        assert(report@.map_values(|line: String| line@) =~= before.map_values(
                            |line: String| line@,
                        ).push(self@.accounts[key].line()));
                    }
                },
                None => {},
            }
            client += 1;
        }
        report
    }

    /// The account of `client`, if there is one. In a well-formed engine its total
    /// is the sum of its available and held balances.
    pub fn account(&self, client: u16) -> (found: Option<Account>)
        ensures
            found is Some == self@.accounts.contains_key(client),
            found is Some ==> found.unwrap()@ == self@.accounts[client],
            found is Some && self@.wf() ==> found.unwrap().client == client && found.unwrap().total
                == found.unwrap().available + found.unwrap().held,
    {
        match self.account_ledger.get(&client) {
            Some(account) => Some(*account),
            None => None,
        }
    }

    /// What is retained of the transaction `tx`, if anything.
    pub fn transaction(&self, tx: u32) -> (found: Option<TransactionEntry>)
        ensures
            found is Some == self@.transactions.contains_key(tx),
            found is Some ==> found.unwrap()@ == self@.transactions[tx],
    {
        match self.transaction_ledger.get(&tx) {
            Some(entry) => Some(*entry),
            None => None,
        }
    }

    /// Whether the transaction `tx` is under open dispute.
    pub fn is_disputed(&self, tx: u32) -> (open: bool)
        ensures
            open == self@.disputes.contains(tx),
    {
        self.dispute_ledger.contains(&tx)
    }
}

/// Whether the sum of `a` and `b` fits the machine representation.
fn sum_fits(a: i64, b: i64) -> (fits: bool)
    ensures
        fits == in_range(a + b),
{
    a.checked_add(b).is_some()
}

/// Whether the difference of `a` and `b` fits the machine representation.
fn difference_fits(a: i64, b: i64) -> (fits: bool)
    ensures
        fits == in_range(a - b),
{
    a.checked_sub(b).is_some()
}

impl Transaction<TransactionRecord> for TransactionService {
    /// The engine is well formed when its ledgers are.
    open spec fn wf(&self) -> bool {
        self@.wf()
    }

    /// An operation fits when the balances it writes, and the entry that a
    /// withdrawal files, are within the machine range.
    open spec fn fits(&self, kind: TransactionType, record: TransactionRecord) -> bool {
        self@.operation_fits(kind, record)
    }

    /// The outcome that the ledgers give for the operation.
    open spec fn verdict(&self, kind: TransactionType, record: TransactionRecord) -> Result<
        (),
        TransactionError,
    > {
        self@.operation_outcome(kind, record)
    }

    /// The ledgers after the operation has accepted the record.
    open spec fn effect(&self, kind: TransactionType, record: TransactionRecord) -> Ledger {
        self@.operation_effect(kind, record)
    }

    /// Adds the record's amount to the client's account, opening the account if
    /// there is none, and retains the transaction. Declined only for want of an
    /// amount.
    fn deposit(&mut self, record: TransactionRecord) -> (res: Result<(), TransactionError>) {
        if let Some(amount) = record.amount {
            match self.account_ledger.get(&record.client) {
                Some(account) => {
                    let updated_account = account.deposit(amount);
                    self.account_ledger.insert(record.client, updated_account);
                },
                None => {
                    let account = Account {
                        client: record.client,
                        available: amount,
                        held: 0,
                        total: amount,
                        locked: false,
                    };
                    self.account_ledger.insert(record.client, account);
                },
            };
            self.transaction_ledger.insert(
                record.tx,
                TransactionEntry { client: record.client, amount },
            );
            proof {
                let after = old(self)@.deposit_effect(record);
                assert(self@.accounts =~= after.accounts);
                assert(self@.transactions =~= after.transactions);
            }
            Ok(())
        } else {
            return Err(TransactionError::MissingAmount);
        }
    }

    /// Takes the record's amount out of the client's account and retains the
    /// transaction with the amount negated. Declined for want of an amount, of an
    /// account, or of sufficient available funds.
    fn withdrawal(&mut self, record: TransactionRecord) -> (res: Result<(), TransactionError>) {
        if let Some(amount) = record.amount {
            match self.account_ledger.get(&record.client) {
                Some(account) => {
                    if account.available < amount {
                        return Err(TransactionError::InsufficientFunds);
                    }
                    let updated_account = account.withdrawal(amount);
                    self.account_ledger.insert(record.client, updated_account);
                    self.transaction_ledger.insert(
                        record.tx,
                        TransactionEntry { client: record.client, amount: -amount },
                    );
                },
                None => {
                    return Err(TransactionError::InvalidAccount);
                },
            };
        } else {
            return Err(TransactionError::MissingAmount);
        }
        proof {
            let after = old(self)@.withdrawal_effect(record);
            assert(self@.accounts =~= after.accounts);
            assert(self@.transactions =~= after.transactions);
        }
        Ok(())
    }

    /// Puts the amount of the transaction that the record names on hold and opens
    /// the dispute. Declined if the dispute is open already, if the transaction is
    /// not retained or belongs to another client, if the client has no account, or
    /// if the available funds do not cover the amount.
    fn dispute(&mut self, record: TransactionRecord) -> (res: Result<(), TransactionError>) {
        if self.dispute_ledger.contains(&record.tx) {
            return Err(TransactionError::DisputeAlreadyExists);
        }
        match self.transaction_ledger.get(&record.tx) {
            Some(t_entry) => {
                if record.client != t_entry.client {
                    return Err(TransactionError::MissingTransaction);
                }
                match self.account_ledger.get(&record.client) {
                    Some(account) => {
                        if account.available < t_entry.amount {
                            return Err(TransactionError::InsufficientFunds);
                        }
                        let updated_account = account.dispute(t_entry.amount);
                        self.account_ledger.insert(record.client, updated_account);
                    },
                    None => {
                        return Err(TransactionError::InvalidAccount);
                    },
                }
                self.dispute_ledger.insert(record.tx);
            },
            None => {
                return Err(TransactionError::MissingTransaction);
            },
        };
        proof {
            let after = old(self)@.dispute_effect(record);
            assert(self@.accounts =~= after.accounts);
        }
        Ok(())
    }

    /// Settles the dispute over the transaction that the record names, as the
    /// record's own type says: a resolution releases the amount on hold, a
    /// chargeback reverses the transaction and locks the account.
    fn resolve(&mut self, record: TransactionRecord) -> (res: Result<(), TransactionError>) {
        self.process_dispute(&record)
    }

    /// Settles the dispute over the transaction that the record names, as the
    /// record's own type says: a resolution releases the amount on hold, a
    /// chargeback reverses the transaction and locks the account.
    fn chargeback(&mut self, record: TransactionRecord) -> (res: Result<(), TransactionError>) {
        self.process_dispute(&record)
    }
}

impl TransactionService {
    /// The settlement that resolutions and chargebacks share; the two differ only
    /// in what becomes of the account.
    fn process_dispute(&mut self, record: &TransactionRecord) -> (res: Result<
        (),
        TransactionError,
    >)
        requires
            old(self)@.wf(),
            old(self)@.operation_fits(TransactionType::RESOLVE, *record),
        ensures
            final(self)@.wf(),
            res == old(self)@.settle_outcome(*record),
            res is Ok ==> final(self)@ == old(self)@.settle_effect(*record),
            res is Err ==> final(self)@ == old(self)@,
    {
        if !self.dispute_ledger.contains(&record.tx) {
            return Err(TransactionError::TransactionNotDisputed);
        }
        match self.transaction_ledger.get(&record.tx) {
            Some(t_entry) => {
                if record.client != t_entry.client {
                    return Err(TransactionError::MissingTransaction);
                }
                match self.account_ledger.get(&record.client) {
                    Some(account) => {
                        let updated_account = self.update_dispute(
                            account,
                            t_entry.amount,
                            &record._type,
                        )?;
                        self.account_ledger.insert(record.client, updated_account);
                    },
                    None => {
                        return Err(TransactionError::InvalidAccount);
                    },
                }
                self.dispute_ledger.remove(&record.tx);
            },
            None => {
                return Err(TransactionError::MissingTransaction);
            },
        };
        proof {
            let after = old(self)@.settle_effect(*record);
            assert(self@.accounts =~= after.accounts);
        }
        Ok(())
    }

    /// The account after the settlement named by `_type`; any type but a
    /// resolution or a chargeback is declined.
    fn update_dispute(&self, account: &Account, amount: i64, _type: &TransactionType) -> (res:
        Result<Account, TransactionError>)
        requires
            *_type is RESOLVE ==> account@.resolve(amount as int).representable(),
            *_type is CHARGEBACK ==> account@.chargeback(amount as int).representable(),
        ensures
            match *_type {
                TransactionType::RESOLVE => res is Ok && res.unwrap()@ == account@.resolve(
                    amount as int,
                ),
                TransactionType::CHARGEBACK => res is Ok && res.unwrap()@
                    == account@.chargeback(amount as int),
                _ => res == Err::<Account, TransactionError>(TransactionError::InvalidOperation),
            },
    {
        match _type {
            TransactionType::RESOLVE => Ok(account.resolve(amount)),
            TransactionType::CHARGEBACK => Ok(account.chargeback(amount)),
            _ => Err(TransactionError::InvalidOperation),
        }
    }
}

} // verus!
