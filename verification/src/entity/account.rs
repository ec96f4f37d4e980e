//! A client's account and its five transitions.

use vstd::prelude::*;
use vstd::string::StringExecFns;
use crate::amount::{amount_text, decimal_text, in_range, push_amount, push_decimal};

verus! {

/// The balances of one client, in ten-thousandths of the currency unit.
///
/// The transitions return a new account and leave the one they are called on as it
/// is. None of them looks at the lock or at the balances: whoever calls them decides
/// whether the transition is allowed.
#[derive(Clone, Copy, Debug, PartialEq, Eq)]
pub struct Account {
    /// The client that owns the account.
    pub client: u16,
    /// What the client can withdraw.
    pub available: i64,
    /// What is on hold while disputes are open.
    pub held: i64,
    /// Available and held together.
    pub total: i64,
    /// Whether a chargeback has locked the account.
    pub locked: bool,
}

/// An account as a mathematical value, with unbounded balances.
pub struct AccountView {
    /// The client that owns the account.
    pub client: u16,
    /// What the client can withdraw.
    pub available: int,
    /// What is on hold while disputes are open.
    pub held: int,
    /// Available and held together.
    pub total: int,
    /// Whether a chargeback has locked the account.
    pub locked: bool,
}

impl AccountView {
    /// The account that a first deposit of `amount` opens for `client`.
    pub open spec fn opened(client: u16, amount: int) -> AccountView {
        AccountView { client, available: amount, held: 0, total: amount, locked: false }
    }

    /// The total is the sum of what is available and what is held.
    pub open spec fn balanced(self) -> bool {
        self.total == self.available + self.held
    }

    /// Every balance fits the machine representation.
    pub open spec fn representable(self) -> bool {
        in_range(self.available) && in_range(self.held) && in_range(self.total)
    }

    /// The account after `amount` has been deposited.
    pub open spec fn deposit(self, amount: int) -> AccountView {
        AccountView { available: self.available + amount, total: self.total + amount, ..self }
    }

    /// The account after `amount` has been withdrawn.
    pub open spec fn withdrawal(self, amount: int) -> AccountView {
        AccountView { available: self.available - amount, total: self.total - amount, ..self }
    }

    /// The account after `amount` has been put on hold.
    pub open spec fn dispute(self, amount: int) -> AccountView {
        AccountView { available: self.available - amount, held: self.held + amount, ..self }
    }

    /// The account after a hold of `amount` has been released.
    pub open spec fn resolve(self, amount: int) -> AccountView {
        AccountView { available: self.available + amount, held: self.held - amount, ..self }
    }

    /// The account after a hold of `amount` has been charged back: locked.
    pub open spec fn chargeback(self, amount: int) -> AccountView {
        AccountView { held: self.held - amount, total: self.total - amount, locked: true, ..self }
    }

    /// The account as one line of a report: client, available, held, total and
    /// lock, separated by commas, the balances with four fractional digits.
    pub open spec fn line(self) -> Seq<char> {
        decimal_text(self.client as nat) + seq![','] + amount_text(self.available) + seq![',']
            + amount_text(self.held) + seq![','] + amount_text(self.total) + seq![',']
            + (if self.locked { seq!['t', 'r', 'u', 'e'] } else { seq!['f', 'a', 'l', 's', 'e'] })
    }
}

impl View for Account {
    type V = AccountView;

    /// The same account, its balances taken as integers.
    open spec fn view(&self) -> AccountView {
        AccountView {
            client: self.client,
            available: self.available as int,
            held: self.held as int,
            total: self.total as int,
            locked: self.locked,
        }
    }
}

impl Account {
    /// Adds `amount` to the available balance and to the total.
    pub fn deposit(&self, amount: i64) -> (updated: Account)
        requires
            self@.deposit(amount as int).representable(),
        ensures
            updated@ == self@.deposit(amount as int),
            self@.balanced() ==> updated@.balanced(),
    {
        Account { available: self.available + amount, total: self.total + amount, ..*self }
    }

    /// Takes `amount` from the available balance and from the total.
    pub fn withdrawal(&self, amount: i64) -> (updated: Account)
        requires
            self@.withdrawal(amount as int).representable(),
        ensures
            updated@ == self@.withdrawal(amount as int),
            self@.balanced() ==> updated@.balanced(),
    {
        Account { available: self.available - amount, total: self.total - amount, ..*self }
    }

    /// Moves `amount` from the available balance to the held one.
    pub fn dispute(&self, amount: i64) -> (updated: Account)
        requires
            self@.dispute(amount as int).representable(),
        ensures
            updated@ == self@.dispute(amount as int),
            self@.balanced() ==> updated@.balanced(),
    {
        Account { available: self.available - amount, held: self.held + amount, ..*self }
    }

    /// Moves `amount` back from the held balance to the available one.
    pub fn resolve(&self, amount: i64) -> (updated: Account)
        requires
            self@.resolve(amount as int).representable(),
        ensures
            updated@ == self@.resolve(amount as int),
            self@.balanced() ==> updated@.balanced(),
    {
        Account { available: self.available + amount, held: self.held - amount, ..*self }
    }

    /// Takes `amount` from the held balance and from the total, and locks the account.
    pub fn chargeback(&self, amount: i64) -> (updated: Account)
        requires
            self@.chargeback(amount as int).representable(),
        ensures
            updated@ == self@.chargeback(amount as int),
            self@.balanced() ==> updated@.balanced(),
    {
        Account { held: self.held - amount, total: self.total - amount, locked: true, ..*self }
    }

    /// Renders the account as one line of a report, without a line break.
    pub fn print(&self) -> (line: String)
        ensures
            line@ == self@.line(),
    {
        let mut line = String::new();
        push_decimal(&mut line, self.client as u64);
        line.append(",");
        push_amount(&mut line, self.available);
        line.append(",");
        push_amount(&mut line, self.held);
        line.append(",");
        push_amount(&mut line, self.total);
        line.append(",");
        if self.locked {
            line.append("true");
        } else {
            line.append("false");
        }
        proof {
            reveal_strlit(",");
            reveal_strlit("true");
            reveal_strlit("false");
        }
        line
    }
}

} // verus!
