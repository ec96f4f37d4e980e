//! The operations of a transaction processor.

use vstd::prelude::*;
use crate::entity::transaction_type::TransactionType;
use crate::error::TransactionError;

verus! {

/// The five operations of a transaction processor whose records have type `T`.
///
/// A processor is specified through its view. For each operation it says which
/// records it accepts (`verdict`), what an accepted record does to the view
/// (`effect`), and which records it can carry out within machine limits (`fits`).
/// A record that is declined leaves the view as it was.
pub trait Transaction<T>: View {
    /// The invariant of the processor's state.
    spec fn wf(&self) -> bool;

    /// Whether the operation `kind` can be carried out on `record` without leaving
    /// the range of the machine representation.
    spec fn fits(&self, kind: TransactionType, record: T) -> bool;

    /// Whether the operation `kind` accepts `record`, and if not, why.
    spec fn verdict(&self, kind: TransactionType, record: T) -> Result<(), TransactionError>;

    /// The view after the operation `kind` has accepted `record`.
    spec fn effect(&self, kind: TransactionType, record: T) -> Self::V;

    /// Puts money into an account.
    fn deposit(&mut self, record: T) -> (res: Result<(), TransactionError>)
        requires
            old(self).wf(),
            old(self).fits(TransactionType::DEPOSIT, record),
        ensures
            final(self).wf(),
            res == old(self).verdict(TransactionType::DEPOSIT, record),
            res is Ok ==> final(self)@ == old(self).effect(TransactionType::DEPOSIT, record),
            res is Err ==> final(self)@ == old(self)@,
    ;

    /// Takes money out of an account.
    fn withdrawal(&mut self, record: T) -> (res: Result<(), TransactionError>)
        requires
            old(self).wf(),
            old(self).fits(TransactionType::WITHDRAWAL, record),
        ensures
            final(self).wf(),
            res == old(self).verdict(TransactionType::WITHDRAWAL, record),
            res is Ok ==> final(self)@ == old(self).effect(TransactionType::WITHDRAWAL, record),
            res is Err ==> final(self)@ == old(self)@,
    ;

    /// Opens a dispute over an earlier transaction.
    fn dispute(&mut self, record: T) -> (res: Result<(), TransactionError>)
        requires
            old(self).wf(),
            old(self).fits(TransactionType::DISPUTE, record),
        ensures
            final(self).wf(),
            res == old(self).verdict(TransactionType::DISPUTE, record),
            res is Ok ==> final(self)@ == old(self).effect(TransactionType::DISPUTE, record),
            res is Err ==> final(self)@ == old(self)@,
    ;

    /// Closes a dispute and releases the money on hold.
    fn resolve(&mut self, record: T) -> (res: Result<(), TransactionError>)
        requires
            old(self).wf(),
            old(self).fits(TransactionType::RESOLVE, record),
        ensures
            final(self).wf(),
            res == old(self).verdict(TransactionType::RESOLVE, record),
            res is Ok ==> final(self)@ == old(self).effect(TransactionType::RESOLVE, record),
            res is Err ==> final(self)@ == old(self)@,
    ;

    /// Closes a dispute by reversing the transaction, and locks the account.
    fn chargeback(&mut self, record: T) -> (res: Result<(), TransactionError>)
        requires
            old(self).wf(),
            old(self).fits(TransactionType::CHARGEBACK, record),
        ensures
            final(self).wf(),
            res == old(self).verdict(TransactionType::CHARGEBACK, record),
            res is Ok ==> final(self)@ == old(self).effect(TransactionType::CHARGEBACK, record),
            res is Err ==> final(self)@ == old(self)@,
    ;
}

} // verus!
