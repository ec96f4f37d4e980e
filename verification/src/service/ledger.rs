//! The mathematical model of the engine: three ledgers and a transition function.

use vstd::prelude::*;
use crate::amount::in_range;
use crate::entity::account::AccountView;
use crate::entity::transaction_record::{EntryView, TransactionRecord};
use crate::entity::transaction_type::TransactionType;
use crate::error::TransactionError;

verus! {

/// The state of the engine as a mathematical value.
pub struct Ledger {
    /// The account of every client that has one.
    pub accounts: Map<u16, AccountView>,
    /// The retained entry of every deposit and withdrawal, by transaction identifier.
    pub transactions: Map<u32, EntryView>,
    /// The transactions under open dispute.
    pub disputes: Set<u32>,
}

impl Ledger {
    /// The state before any transaction.
    pub open spec fn empty() -> Ledger {
        Ledger { accounts: Map::empty(), transactions: Map::empty(), disputes: Set::empty() }
    }

    /// Every account is filed under its own client and has a total that is the sum
    /// of its available and held balances; every disputed transaction is retained;
    /// every retained transaction belongs to a client with an account.
    pub open spec fn wf(self) -> bool {
        &&& forall|client: u16| #[trigger]
            self.accounts.contains_key(client) ==> self.accounts[client].client == client
                && self.accounts[client].balanced()
        &&& forall|tx: u32| #[trigger]
            self.disputes.contains(tx) ==> self.transactions.contains_key(tx)
        &&& forall|tx: u32| #[trigger]
            self.transactions.contains_key(tx) ==> self.accounts.contains_key(
                self.transactions[tx].client,
            )
    }

    /// Whether `client` has an account and that account is locked.
    pub open spec fn locked(self, client: u16) -> bool {
        self.accounts.contains_key(client) && self.accounts[client].locked
    }

    /// Whether a deposit is accepted: it needs an amount, and nothing else.
    pub open spec fn deposit_outcome(self, record: TransactionRecord) -> Result<
        (),
        TransactionError,
    > {
        if record.amount is None {
            Err(TransactionError::MissingAmount)
        } else {
            Ok(())
        }
    }

    /// The state after an accepted deposit: the amount is added to the client's
    /// account, or opens it, and the entry filed under the transaction identifier
    /// is replaced.
    pub open spec fn deposit_effect(self, record: TransactionRecord) -> Ledger {
        let amount = record.amount.unwrap() as int;
        let account = if self.accounts.contains_key(record.client) {
            self.accounts[record.client].deposit(amount)
        } else {
            AccountView::opened(record.client, amount)
        };
        Ledger {
            accounts: self.accounts.insert(record.client, account),
            transactions: self.transactions.insert(
                record.tx,
                EntryView { client: record.client, amount },
            ),
            ..self
        }
    }

    /// Whether a withdrawal is accepted: it needs an amount, an account, and an
    /// available balance that the amount does not exceed.
    pub open spec fn withdrawal_outcome(self, record: TransactionRecord) -> Result<
        (),
        TransactionError,
    > {
        if record.amount is None {
            Err(TransactionError::MissingAmount)
        } else if !self.accounts.contains_key(record.client) {
            Err(TransactionError::InvalidAccount)
        } else if self.accounts[record.client].available - record.amount.unwrap() < 0 {
            Err(TransactionError::InsufficientFunds)
        } else {
            Ok(())
        }
    }

    /// The state after an accepted withdrawal: the amount leaves the account, and
    /// the entry is filed with the amount negated.
    pub open spec fn withdrawal_effect(self, record: TransactionRecord) -> Ledger {
        let amount = record.amount.unwrap() as int;
        Ledger {
            accounts: self.accounts.insert(
                record.client,
                self.accounts[record.client].withdrawal(amount),
            ),
            transactions: self.transactions.insert(
                record.tx,
                EntryView { client: record.client, amount: -amount },
            ),
            ..self
        }
    }

    /// Whether a dispute is accepted: the transaction is not under dispute yet, it
    /// is retained, it belongs to the client, the client has an account, and the
    /// available balance covers the entry's amount.
    pub open spec fn dispute_outcome(self, record: TransactionRecord) -> Result<
        (),
        TransactionError,
    > {
        if self.disputes.contains(record.tx) {
            Err(TransactionError::DisputeAlreadyExists)
        } else if !self.transactions.contains_key(record.tx) {
            Err(TransactionError::MissingTransaction)
        } else if self.transactions[record.tx].client != record.client {
            Err(TransactionError::MissingTransaction)
        } else if !self.accounts.contains_key(record.client) {
            Err(TransactionError::InvalidAccount)
        } else if self.accounts[record.client].available - self.transactions[record.tx].amount
            < 0 {
            Err(TransactionError::InsufficientFunds)
        } else {
            Ok(())
        }
    }

    /// The state after an accepted dispute: the entry's amount is put on hold, and
    /// the transaction joins the open disputes.
    pub open spec fn dispute_effect(self, record: TransactionRecord) -> Ledger {
        Ledger {
            accounts: self.accounts.insert(
                record.client,
                self.accounts[record.client].dispute(self.transactions[record.tx].amount),
            ),
            disputes: self.disputes.insert(record.tx),
            ..self
        }
    }

    /// Whether the settlement of a dispute is accepted, be it a resolution or a
    /// chargeback: the transaction is under dispute, it is retained, it belongs to
    /// the client, the client has an account, and the record asks for one of the two.
    pub open spec fn settle_outcome(self, record: TransactionRecord) -> Result<
        (),
        TransactionError,
    > {
        if !self.disputes.contains(record.tx) {
            Err(TransactionError::TransactionNotDisputed)
        } else if !self.transactions.contains_key(record.tx) {
            Err(TransactionError::MissingTransaction)
        } else if self.transactions[record.tx].client != record.client {
            Err(TransactionError::MissingTransaction)
        } else if !self.accounts.contains_key(record.client) {
            Err(TransactionError::InvalidAccount)
        } else if !(record._type is RESOLVE || record._type is CHARGEBACK) {
            Err(TransactionError::InvalidOperation)
        } else {
            Ok(())
        }
    }

    /// The account that the settlement asked for by `record` leaves behind.
    pub open spec fn settled_account(self, record: TransactionRecord) -> AccountView {
        let account = self.accounts[record.client];
        let amount = self.transactions[record.tx].amount;
        if record._type is RESOLVE {
            account.resolve(amount)
        } else {
            account.chargeback(amount)
        }
    }

    /// The state after an accepted settlement: the amount on hold is released or
    /// charged back, and the dispute is closed.
    pub open spec fn settle_effect(self, record: TransactionRecord) -> Ledger {
        Ledger {
            accounts: self.accounts.insert(record.client, self.settled_account(record)),
            disputes: self.disputes.remove(record.tx),
            ..self
        }
    }

    /// Whether the operation `kind` accepts `record`, the record's own type left
    /// aside but where a settlement reads it.
    pub open spec fn operation_outcome(
        self,
        kind: TransactionType,
        record: TransactionRecord,
    ) -> Result<(), TransactionError> {
        match kind {
            TransactionType::DEPOSIT => self.deposit_outcome(record),
            TransactionType::WITHDRAWAL => self.withdrawal_outcome(record),
            TransactionType::DISPUTE => self.dispute_outcome(record),
            TransactionType::RESOLVE => self.settle_outcome(record),
            TransactionType::CHARGEBACK => self.settle_outcome(record),
        }
    }

    /// The state after the operation `kind` has accepted `record`.
    pub open spec fn operation_effect(
        self,
        kind: TransactionType,
        record: TransactionRecord,
    ) -> Ledger {
        match kind {
            TransactionType::DEPOSIT => self.deposit_effect(record),
            TransactionType::WITHDRAWAL => self.withdrawal_effect(record),
            TransactionType::DISPUTE => self.dispute_effect(record),
            TransactionType::RESOLVE => self.settle_effect(record),
            TransactionType::CHARGEBACK => self.settle_effect(record),
        }
    }

    /// The state that the operation `kind` leaves: its effect where it accepts the
    /// record, the state as it was where it declines.
    pub open spec fn operation_step(
        self,
        kind: TransactionType,
        record: TransactionRecord,
    ) -> Ledger {
        if self.operation_outcome(kind, record) is Ok {
            self.operation_effect(kind, record)
        } else {
            self
        }
    }

    /// Whether what the operation `kind` writes for `record` fits the machine
    /// representation: the balances of the client's account, and the amount of the
    /// entry that a withdrawal files. An operation that declines writes nothing.
    pub open spec fn operation_fits(self, kind: TransactionType, record: TransactionRecord) -> bool {
        self.operation_outcome(kind, record) is Ok ==> {
            let next = self.operation_effect(kind, record);
            &&& next.accounts[record.client].representable()
            &&& kind is WITHDRAWAL ==> in_range(next.transactions[record.tx].amount)
        }
    }

    /// Whether `record` is accepted. A locked account declines everything; for the
    /// rest the operation named by the record's type decides.
    pub open spec fn outcome(self, record: TransactionRecord) -> Result<(), TransactionError> {
        if self.locked(record.client) {
            Err(TransactionError::LockedAccount)
        } else {
            self.operation_outcome(record._type, record)
        }
    }

    /// The state after `record`: changed as its operation says where the record is
    /// accepted, unchanged where it is declined.
    pub open spec fn step(self, record: TransactionRecord) -> Ledger {
        if self.outcome(record) is Ok {
            self.operation_effect(record._type, record)
        } else {
            self
        }
    }

    /// Whether what `record` makes the engine write fits the machine representation.
    pub open spec fn within_limits(self, record: TransactionRecord) -> bool {
        self.outcome(record) is Ok ==> self.operation_fits(record._type, record)
    }

    /// The state after the records of `records`, taken in order.
    pub open spec fn run(self, records: Seq<TransactionRecord>) -> Ledger
        decreases records.len(),
    {
        if records.len() == 0 {
            self
        } else {
            self.run(records.drop_last()).step(records.last())
        }
    }
    /// The accounts of the clients below `bound`, in ascending order of client.
    pub open spec fn accounts_below(self, bound: nat) -> Seq<AccountView>
        decreases bound,
    {
        if bound == 0 {
            Seq::empty()
        } else {
            let client = (bound - 1) as u16;
            let before = self.accounts_below((bound - 1) as nat);
            if self.accounts.contains_key(client) {
                before.push(self.accounts[client])
            } else {
                before
            }
        }
    }

    /// Every account, in ascending order of client.
    pub open spec fn roster(self) -> Seq<AccountView> {
        self.accounts_below(client_count())
    }

    /// The report: the heading, then one line for each account of the roster.
    pub open spec fn report(self) -> Seq<Seq<char>> {
        seq![report_heading()] + self.roster().map_values(|account: AccountView| account.line())
    }
}

/// The number of client identifiers.
pub open spec fn client_count() -> nat {
    65_536
}

/// The first line of a report, which names the columns.
pub open spec fn report_heading() -> Seq<char> {
    "client,available,held,total,locked"@
}

} // verus!
