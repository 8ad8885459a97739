//! Transactions: several statements that take effect together or not at
//! all.
//!
//! A transaction works on a snapshot of the store, taken when it begins.
//! Committing it replaces the store's tables by the snapshot's. The store
//! commits a transaction only if it is serializable and no other
//! transaction was committed since it began, so nothing that was committed
//! is ever lost. A transaction that is dropped changes nothing.
use vstd::prelude::*;
use crate::adapter::database::keys::{
    lemma_position, lemma_position_of_entry, lemma_position_push, lemma_position_remove, position,
};
use crate::adapter::database::model::{
    BookRecord, CheckoutRecord, CheckoutStateRow, UserRecord,
};
use crate::adapter::database::store::{Database, DatabaseView};
use crate::adapter::rules::{
    checkout_verdict, return_verdict, verify_checkout, verify_return, verify_rows_affected,
};
use crate::error::{AppError, FailedWrite, TransactionFault};
use crate::kernel::model::book::{DeleteBook, UpdateBook};
use crate::kernel::model::checkout::{CreateCheckout, UpdateReturned};
use crate::kernel::model::id::{BookId, CheckoutId};
use crate::kernel::model::time::Timestamp;

verus! {

/// The open loan that `event` asks for, under the id `checkout_id`.
pub open spec fn new_loan(event: CreateCheckout, checkout_id: CheckoutId) -> CheckoutRecord {
    CheckoutRecord {
        checkout_id,
        book_id: event.book_id,
        user_id: event.checked_out_by,
        checked_out_at: event.checked_out_at,
    }
}

/// What lending a book does to the tables: the tables with the new loan, or
/// the reason why nothing is written.
pub open spec fn checkout_outcome(
    db: DatabaseView,
    event: CreateCheckout,
    checkout_id: CheckoutId,
) -> Result<DatabaseView, AppError> {
    match checkout_verdict(db.checkout_state(event.book_id), event) {
        Err(e) => Err(e),
        Ok(()) => if db.knows_checkout(checkout_id) {
            Err(AppError::UnprocessableState(FailedWrite::CheckoutNotCreated))
        } else {
            Ok(db.with_checkout(new_loan(event, checkout_id)))
        },
    }
}

/// What taking a book back does to the tables: the tables with the loan
/// moved from the open loans to the history, or the reason why nothing is
/// written.
pub open spec fn return_outcome(db: DatabaseView, event: UpdateReturned) -> Result<
    DatabaseView,
    AppError,
> {
    match return_verdict(db.checkout_state(event.book_id), event) {
        Err(e) => Err(e),
        Ok(()) => {
            let i = position(db.lent_book_ids(), event.book_id.0)->0;
            Ok(
                db.with_returned(db.checkouts[i].returned(event.returned_at)).without_checkout(
                    i,
                ),
            )
        },
    }
}

/// Lending a book leaves the tables well formed, with that book lent under
/// the new loan and every other book as it was.
pub proof fn lemma_checkout_outcome(
    db: DatabaseView,
    event: CreateCheckout,
    checkout_id: CheckoutId,
)
    requires
        db.well_formed(),
        checkout_outcome(db, event, checkout_id) is Ok,
    ensures
        ({
            let next = checkout_outcome(db, event, checkout_id)->Ok_0;
            &&& next.well_formed()
            &&& db.has_book(event.book_id)
            &&& db.loan_of(event.book_id) is None
            &&& next == db.with_checkout(new_loan(event, checkout_id))
            &&& next.loan_of(event.book_id) == Some(new_loan(event, checkout_id))
            &&& forall|other: BookId| #[trigger] next.has_book(other) == db.has_book(other)
            &&& forall|other: BookId|
                other != event.book_id ==> #[trigger] next.loan_of(other) == db.loan_of(other)
        }),
{
    let loan = new_loan(event, checkout_id);
    let next = db.with_checkout(loan);
    lemma_position(db.checkout_ids(), checkout_id.0);
    lemma_position(db.returned_ids(), checkout_id.0);
    assert(next.checkout_ids() =~= db.checkout_ids().push(checkout_id.0));
    assert(next.lent_book_ids() =~= db.lent_book_ids().push(event.book_id.0));
    assert(next.user_ids() =~= db.user_ids());
    assert(next.book_ids() =~= db.book_ids());
    assert(next.returned_ids() =~= db.returned_ids());
    lemma_position(db.lent_book_ids(), event.book_id.0);
    lemma_position_push(db.lent_book_ids(), event.book_id.0, event.book_id.0);
    assert forall|a: int, b: int|
        0 <= a < next.checkouts.len() && 0 <= b < next.returned_checkouts.len()
        implies next.checkouts[a].checkout_id != next.returned_checkouts[b].checkout_id by {
        if a < db.checkouts.len() {
            assert(next.checkouts[a] == db.checkouts[a]);
        } else {
            assert(db.returned_ids()[b] != checkout_id.0);
        }
    }
    assert forall|other: BookId| other != event.book_id implies #[trigger] next.loan_of(other)
        == db.loan_of(other) by {
        lemma_position_push(db.lent_book_ids(), event.book_id.0, other.0);
        lemma_position(db.lent_book_ids(), other.0);
    }
}

/// Taking a book back leaves the tables well formed, with that book free
/// and every other book as it was: the book's loan has left the open loans
/// and stands at the end of the history, closed at the time of the return.
pub proof fn lemma_return_outcome(db: DatabaseView, event: UpdateReturned) -> (i: int)
    requires
        db.well_formed(),
        return_outcome(db, event) is Ok,
    ensures
        0 <= i < db.checkouts.len(),
        db.loan_of(event.book_id) == Some(db.checkouts[i]),
        db.checkouts[i].checkout_id == event.checkout_id,
        db.checkouts[i].book_id == event.book_id,
        db.checkouts[i].user_id == event.returned_by,
        position(db.checkout_ids(), event.checkout_id.0) == Some(i),
        position(db.returned_ids(), event.checkout_id.0) is None,
        ({
            let next = return_outcome(db, event)->Ok_0;
            &&& next.well_formed()
            &&& next.users == db.users
            &&& next.books == db.books
            &&& next.version == db.version
            &&& next.checkouts == db.checkouts.remove(i)
            &&& next.returned_checkouts == db.returned_checkouts.push(
                db.checkouts[i].returned(event.returned_at),
            )
            &&& next.loan_of(event.book_id) is None
            &&& forall|other: BookId| #[trigger] next.has_book(other) == db.has_book(other)
            &&& forall|other: BookId|
                other != event.book_id ==> #[trigger] next.loan_of(other) == db.loan_of(other)
        }),
{
    let i = position(db.lent_book_ids(), event.book_id.0)->0;
    let next = return_outcome(db, event)->Ok_0;
    lemma_position(db.lent_book_ids(), event.book_id.0);
    assert(db.lent_book_ids()[i] == event.book_id.0);
    lemma_position_of_entry(db.checkout_ids(), i);
    lemma_position(db.returned_ids(), event.checkout_id.0);
    assert(position(db.returned_ids(), event.checkout_id.0) is None) by {
        if let Some(b) = position(db.returned_ids(), event.checkout_id.0) {
            assert(db.returned_checkouts[b].checkout_id == db.checkouts[i].checkout_id);
        }
    }
    assert(next.user_ids() =~= db.user_ids());
    assert(next.book_ids() =~= db.book_ids());
    assert(next.checkout_ids() =~= db.checkout_ids().remove(i));
    assert(next.lent_book_ids() =~= db.lent_book_ids().remove(i));
    assert(next.returned_ids() =~= db.returned_ids().push(event.checkout_id.0));
    lemma_position_remove(db.checkout_ids(), i, event.checkout_id.0);
    lemma_position_remove(db.lent_book_ids(), i, event.book_id.0);
    assert forall|a: int, b: int|
        0 <= a < next.checkouts.len() && 0 <= b < next.returned_checkouts.len()
        implies next.checkouts[a].checkout_id != next.returned_checkouts[b].checkout_id by {
        let a0 = if a < i {
            a
        } else {
            a + 1
        };
        assert(next.checkouts[a] == db.checkouts[a0]);
        if b < db.returned_checkouts.len() {
            assert(next.returned_checkouts[b] == db.returned_checkouts[b]);
        } else {
            assert(db.checkout_ids()[a0] != db.checkout_ids()[i]);
        }
    }
    assert forall|other: BookId| other != event.book_id implies #[trigger] next.loan_of(other)
        == db.loan_of(other) by {
        lemma_position_remove(db.lent_book_ids(), i, other.0);
        lemma_position(db.lent_book_ids(), other.0);
    }
    i
}

/// A transaction in progress.
pub struct Transaction {
    working: Database,
    serializable: bool,
}

/// What a [`Transaction`] holds: its tables, whose version is that of the
/// store when the transaction began, and its isolation level.
pub struct TransactionView {
    pub tables: DatabaseView,
    pub serializable: bool,
}

/// Why the store would refuse to commit the transaction, if it would.
pub open spec fn commit_fault(db: DatabaseView, tx: TransactionView) -> Option<TransactionFault> {
    if !tx.serializable {
        Some(TransactionFault::NotSerializable)
    } else if tx.tables.version != db.version {
        Some(TransactionFault::SerializationFailure)
    } else if db.version == u64::MAX {
        Some(TransactionFault::VersionsExhausted)
    } else {
        None
    }
}

/// The store after the transaction was committed.
pub open spec fn committed(db: DatabaseView, tx: TransactionView) -> DatabaseView {
    DatabaseView { version: (db.version + 1) as u64, ..tx.tables }
}

impl View for Transaction {
    type V = TransactionView;

    closed spec fn view(&self) -> TransactionView {
        TransactionView { tables: self.working@, serializable: self.serializable }
    }
}

impl Transaction {
    /// Raises the isolation level to serializable.
    pub fn set_serializable(&mut self)
        ensures
            final(self)@ == (TransactionView { serializable: true, ..old(self)@ }),
    {
        self.serializable = true;
    }

    /// Rolls the transaction back: gives up its tables, and with them
    /// everything that it wrote. The store is as it was.
    pub fn rollback(self) {
    }

    /// The tables as the transaction sees them.
    pub fn tables(&self) -> (tables: &Database)
        ensures
            tables@ == self@.tables,
    {
        &self.working
    }

    /// Adds a user, unless the id is taken. Returns the number of rows
    /// added.
    pub fn insert_user(&mut self, user: UserRecord) -> (rows: u64)
        requires
            old(self)@.tables.well_formed(),
        ensures
            final(self)@.tables.well_formed(),
            final(self)@.serializable == old(self)@.serializable,
            position(old(self)@.tables.user_ids(), user.user_id.0) is Some ==> rows == 0
                && final(self)@ == old(self)@,
            position(old(self)@.tables.user_ids(), user.user_id.0) is None ==> rows == 1
                && final(self)@.tables == old(self)@.tables.with_user(user),
    {
        self.working.insert_user(user)
    }

    /// Adds a book, unless the id is taken. Returns the number of rows
    /// added.
    pub fn insert_book(&mut self, book: BookRecord) -> (rows: u64)
        requires
            old(self)@.tables.well_formed(),
        ensures
            final(self)@.tables.well_formed(),
            final(self)@.serializable == old(self)@.serializable,
            old(self)@.tables.has_book(book.book_id) ==> rows == 0 && final(self)@ == old(self)@,
            !old(self)@.tables.has_book(book.book_id) ==> rows == 1 && final(self)@.tables
                == old(self)@.tables.with_book(book),
    {
        self.working.insert_book(book)
    }

    /// Replaces title, author, ISBN and description of a book, if there is
    /// such a book and the user may change it. Returns the number of rows
    /// changed.
    pub fn update_book(&mut self, event: UpdateBook) -> (rows: u64)
        requires
            old(self)@.tables.well_formed(),
        ensures
            final(self)@.tables.well_formed(),
            final(self)@.serializable == old(self)@.serializable,
            match position(old(self)@.tables.book_ids(), event.book_id.0) {
                Some(i) if old(self)@.tables.may_change(
                    i,
                    event.requested_user,
                    event.is_admin,
                ) => {
                    &&& rows == 1
                    &&& final(self)@.tables == old(self)@.tables.with_book_at(
                        i,
                        DatabaseView::updated_book(old(self)@.tables.books[i], event),
                    )
                },
                _ => rows == 0 && final(self)@ == old(self)@,
            },
    {
        self.working.update_book(event)
    }

    /// Removes a book, if there is such a book and the user may remove it.
    /// Returns the number of rows removed.
    pub fn delete_book(&mut self, event: DeleteBook) -> (rows: u64)
        requires
            old(self)@.tables.well_formed(),
        ensures
            final(self)@.tables.well_formed(),
            final(self)@.serializable == old(self)@.serializable,
            match position(old(self)@.tables.book_ids(), event.book_id.0) {
                Some(i) if old(self)@.tables.may_change(
                    i,
                    event.requested_user,
                    event.is_admin,
                ) => rows == 1 && final(self)@.tables == old(self)@.tables.without_book(i),
                _ => rows == 0 && final(self)@ == old(self)@,
            },
    {
        self.working.delete_book(event)
    }

    /// Reads what the transaction knows of the book's loan.
    pub fn checkout_state(&self, book_id: BookId) -> (state: Option<CheckoutStateRow>)
        ensures
            state == self@.tables.checkout_state(book_id),
    {
        self.working.checkout_state(book_id)
    }

    /// Adds an open loan, unless a loan, open or returned, has its id.
    /// Returns the number of rows added.
    pub(crate) fn insert_checkout(&mut self, loan: CheckoutRecord) -> (rows: u64)
        requires
            old(self)@.tables.keys_unique(),
        ensures
            final(self)@.tables.keys_unique(),
            final(self)@.serializable == old(self)@.serializable,
            old(self)@.tables.knows_checkout(loan.checkout_id) ==> rows == 0 && final(self)@
                == old(self)@,
            !old(self)@.tables.knows_checkout(loan.checkout_id) ==> rows == 1
                && final(self)@.tables == old(self)@.tables.with_checkout(loan),
    {
        self.working.insert_checkout(loan)
    }

    /// Copies the open loan with this id into the history of returned loans,
    /// closed at `returned_at`, unless there is no such open loan or the
    /// history holds the id already. Returns the number of rows added.
    pub(crate) fn insert_returned_from_checkout(
        &mut self,
        checkout_id: CheckoutId,
        returned_at: Timestamp,
    ) -> (rows: u64)
        requires
            old(self)@.tables.keys_unique(),
        ensures
            final(self)@.tables.keys_unique(),
            final(self)@.serializable == old(self)@.serializable,
            match position(old(self)@.tables.checkout_ids(), checkout_id.0) {
                Some(i) if position(old(self)@.tables.returned_ids(), checkout_id.0) is None => {
                    &&& rows == 1
                    &&& final(self)@.tables == old(self)@.tables.with_returned(
                        old(self)@.tables.checkouts[i].returned(returned_at),
                    )
                },
                _ => rows == 0 && final(self)@ == old(self)@,
            },
    {
        self.working.insert_returned_from_checkout(checkout_id, returned_at)
    }

    /// Removes the open loan with this id, if there is one. Returns the
    /// number of rows removed.
    pub(crate) fn delete_checkout(&mut self, checkout_id: CheckoutId) -> (rows: u64)
        requires
            old(self)@.tables.keys_unique(),
        ensures
            final(self)@.tables.keys_unique(),
            final(self)@.serializable == old(self)@.serializable,
            match position(old(self)@.tables.checkout_ids(), checkout_id.0) {
                Some(i) => rows == 1 && final(self)@.tables == old(self)@.tables.without_checkout(
                    i,
                ),
                None => rows == 0 && final(self)@ == old(self)@,
            },
    {
        self.working.delete_checkout(checkout_id)
    }

    /// Lends a book: checks that the book exists and is not lent out, then
    /// adds the loan under `checkout_id`. On an error the transaction's
    /// tables are as before.
    pub fn create_checkout(&mut self, event: CreateCheckout, checkout_id: CheckoutId) -> (result:
        Result<(), AppError>)
        requires
            old(self)@.tables.well_formed(),
        ensures
            final(self)@.tables.well_formed(),
            final(self)@.serializable == old(self)@.serializable,
            match result {
                Ok(()) => checkout_outcome(old(self)@.tables, event, checkout_id) == Ok::<
                    DatabaseView,
                    AppError,
                >(final(self)@.tables),
                Err(e) => {
                    &&& checkout_outcome(old(self)@.tables, event, checkout_id) == Err::<
                        DatabaseView,
                        AppError,
                    >(e)
                    &&& final(self)@ == old(self)@
                },
            },
    {
        let state = self.working.checkout_state(event.book_id);
        match verify_checkout(state, &event) {
            Err(e) => {
                return Err(e);
            },
            Ok(()) => {},
        }
        let loan = CheckoutRecord {
            checkout_id,
            book_id: event.book_id,
            user_id: event.checked_out_by,
            checked_out_at: event.checked_out_at,
        };
        let ghost before = self.working@;
        let rows = self.working.insert_checkout(loan);
        match verify_rows_affected(rows, FailedWrite::CheckoutNotCreated) {
            Err(e) => {
                return Err(e);
            },
            Ok(()) => {},
        }
        proof {
            lemma_checkout_outcome(before, event, checkout_id);
        }
        Ok(())
    }

    /// Takes a book back: checks that the book exists and is lent out under
    /// the given loan id to the given user, then moves the loan from the
    /// open loans to the history. On an error the transaction's tables are
    /// as before.
    pub fn record_return(&mut self, event: UpdateReturned) -> (result: Result<(), AppError>)
        requires
            old(self)@.tables.well_formed(),
        ensures
            final(self)@.tables.well_formed(),
            final(self)@.serializable == old(self)@.serializable,
            match result {
                Ok(()) => return_outcome(old(self)@.tables, event) == Ok::<DatabaseView, AppError>(
                    final(self)@.tables,
                ),
                Err(e) => {
                    &&& return_outcome(old(self)@.tables, event) == Err::<DatabaseView, AppError>(
                        e,
                    )
                    &&& final(self)@ == old(self)@
                },
            },
    {
        let state = self.working.checkout_state(event.book_id);
        match verify_return(state, &event) {
            Err(e) => {
                return Err(e);
            },
            Ok(()) => {},
        }
        let ghost before = self.working@;
        proof {
            lemma_return_outcome(before, event);
        }
        let rows = self.working.insert_returned_from_checkout(event.checkout_id, event.returned_at);
        match verify_rows_affected(rows, FailedWrite::ReturnNotRecorded) {
            Err(e) => {
                return Err(e);
            },
            Ok(()) => {},
        }
        let ghost recorded = self.working@;
        proof {
            assert(recorded.checkout_ids() =~= before.checkout_ids());
        }
        let rows = self.working.delete_checkout(event.checkout_id);
        match verify_rows_affected(rows, FailedWrite::CheckoutNotDeleted) {
            Err(e) => {
                return Err(e);
            },
            Ok(()) => {},
        }
        Ok(())
    }
}

impl Database {
    /// Begins a transaction at the default isolation level, on a snapshot
    /// of the store as it is now. At that level it can read; to be
    /// committed it has to be made serializable.
    pub fn begin(&self) -> (tx: Transaction)
        ensures
            tx@ == (TransactionView { tables: self@, serializable: false }),
    {
        Transaction { working: self.snapshot(), serializable: false }
    }

    /// Commits the transaction: makes its tables the store's, or refuses
    /// and leaves the store as it is.
    pub fn commit(&mut self, tx: Transaction) -> (result: Result<(), AppError>)
        requires
            old(self)@.well_formed(),
            tx@.tables.well_formed(),
        ensures
            final(self)@.well_formed(),
            match result {
                Ok(()) => {
                    &&& commit_fault(old(self)@, tx@) is None
                    &&& final(self)@ == committed(old(self)@, tx@)
                },
                Err(e) => {
                    &&& commit_fault(old(self)@, tx@) == Some(e->TransactionFailure_0)
                    &&& e is TransactionFailure
                    &&& final(self)@ == old(self)@
                },
            },
    {
        if !tx.serializable {
            return Err(AppError::TransactionFailure(TransactionFault::NotSerializable));
        }
        if tx.working.version() != self.version() {
            return Err(AppError::TransactionFailure(TransactionFault::SerializationFailure));
        }
        if self.version() == u64::MAX {
            return Err(AppError::TransactionFailure(TransactionFault::VersionsExhausted));
        }
        proof {
            let after = committed(self@, tx@);
            assert(after.user_ids() =~= tx@.tables.user_ids());
            assert(after.book_ids() =~= tx@.tables.book_ids());
            assert(after.checkout_ids() =~= tx@.tables.checkout_ids());
            assert(after.returned_ids() =~= tx@.tables.returned_ids());
            assert(after.lent_book_ids() =~= tx@.tables.lent_book_ids());
        }
        self.install(tx.working);
        Ok(())
    }
}

} // verus!
