//! The loans of the catalogue: lending a book, taking it back, and listing
//! loans.
//!
//! A book is lent to one user at a time. Lending and returning each run in
//! one serializable transaction, which reads the state of the book, decides,
//! writes and commits; on any failure the transaction is rolled back and
//! nothing is written.
use vstd::prelude::*;
use vstd::std_specs::convert::FromSpec;
use crate::adapter::database::model::CheckoutRow;
use crate::adapter::database::store::{Database, DatabaseView, LoanFilter};
use crate::adapter::database::transaction::{
    checkout_outcome, return_outcome, Transaction, TransactionView,
};
use crate::error::{AppError, Conflict, TransactionFault};
use crate::kernel::model::checkout::{Checkout, CreateCheckout, UpdateReturned};
use crate::kernel::model::id::{is_random_uuid, BookId, CheckoutId, UserId};

verus! {

/// What committing does to the store, given what the transaction's
/// statements did to its tables: a failed transaction stays failed, and a
/// successful one is committed unless the store has run out of versions.
pub open spec fn commit_outcome(db: DatabaseView, staged: Result<DatabaseView, AppError>) -> Result<
    DatabaseView,
    AppError,
> {
    match staged {
        Err(e) => Err(e),
        Ok(tables) => if db.version == u64::MAX {
            Err(AppError::TransactionFailure(TransactionFault::VersionsExhausted))
        } else {
            Ok(DatabaseView { version: (db.version + 1) as u64, ..tables })
        },
    }
}

/// What lending a book under the loan id `checkout_id` does to the store.
pub open spec fn create_outcome(
    db: DatabaseView,
    event: CreateCheckout,
    checkout_id: CheckoutId,
) -> Result<DatabaseView, AppError> {
    commit_outcome(db, checkout_outcome(db, event, checkout_id))
}

/// What taking a book back does to the store.
pub open spec fn update_returned_outcome(db: DatabaseView, event: UpdateReturned) -> Result<
    DatabaseView,
    AppError,
> {
    commit_outcome(db, return_outcome(db, event))
}

/// Whether the return names the open loan of its book: the book is lent
/// out under the return's loan id to the return's user.
pub open spec fn returns_open_loan(db: DatabaseView, event: UpdateReturned) -> bool {
    match db.loan_of(event.book_id) {
        Some(loan) => loan.checkout_id == event.checkout_id && loan.user_id == event.returned_by,
        None => false,
    }
}

/// The loans that the rows describe, in the order of the rows.
pub open spec fn checkouts_of(rows: Seq<CheckoutRow>) -> Seq<Checkout> {
    Seq::new(rows.len(), |i: int| Checkout::from_spec(rows[i]))
}

/// The loans of a book: its open loan first, if it has one, then its
/// returned loans, the latest return first.
pub open spec fn history_of(db: DatabaseView, book_id: BookId) -> Seq<Checkout> {
    let returned = checkouts_of(db.returned_of(book_id));
    let open = db.unreturned(LoanFilter::ByBook(book_id));
    if open.len() > 0 {
        returned.insert(0, Checkout::from_spec(open[0]))
    } else {
        returned
    }
}

/// Turns rows into loans, in the order of the rows.
pub fn into_checkouts(rows: Vec<CheckoutRow>) -> (checkouts: Vec<Checkout>)
    ensures
        checkouts@ == checkouts_of(rows@),
{
    let mut checkouts: Vec<Checkout> = Vec::new();
    let mut i: usize = 0;
    while i < rows.len()
        invariant
            i <= rows.len(),
            checkouts@.len() == i,
            forall|j: int| 0 <= j < i ==> checkouts@[j] == Checkout::from_spec(rows@[j]),
        decreases rows.len() - i,
    {
        checkouts.push(Checkout::from(rows[i].clone()));
        i += 1;
    }
    assert(checkouts@ =~= checkouts_of(rows@));
    checkouts
}

/// A history: the open loan first, if there is one, whenever it began, then
/// the returned loans in the order given.
pub fn merge_history(open: Option<Checkout>, returned: Vec<Checkout>) -> (history: Vec<Checkout>)
    ensures
        history@ == match open {
            Some(checkout) => returned@.insert(0, checkout),
            None => returned@,
        },
{
    let mut history = returned;
    if let Some(co) = open {
        history.insert(0, co);
    }
    history
}

/// The repository of loans, on a store of its own.
pub struct CheckoutRepositoryImpl {
    db: Database,
}

impl View for CheckoutRepositoryImpl {
    type V = DatabaseView;

    closed spec fn view(&self) -> DatabaseView {
        self.db@
    }
}

impl CheckoutRepositoryImpl {
    /// A repository on the given store.
    pub fn new(db: Database) -> (repository: Self)
        ensures
            repository@ == db@,
    {
        CheckoutRepositoryImpl { db }
    }

    /// Gives the store back.
    pub fn into_inner(self) -> (db: Database)
        ensures
            db@ == self@,
    {
        self.db
    }

    /// The store, to read from.
    pub fn database(&self) -> (db: &Database)
        ensures
            db@ == self@,
    {
        &self.db
    }

    /// Lends a book under a fresh random loan id.
    ///
    /// Fails with `EntityNotFound` exactly if there is no such book, and
    /// with `Conflict` exactly if the book exists and is lent out, whoever
    /// asks. Otherwise the outcome is that of [`Self::create_with_id`] for
    /// the id that was drawn.
    pub fn create(&mut self, event: CreateCheckout) -> (result: Result<(), AppError>)
        requires
            old(self)@.well_formed(),
        ensures
            final(self)@.well_formed(),
            exists|checkout_id: CheckoutId|
                {
                    &&& is_random_uuid(checkout_id.0)
                    &&& match result {
                        Ok(()) => #[trigger] create_outcome(old(self)@, event, checkout_id) == Ok::<
                            DatabaseView,
                            AppError,
                        >(final(self)@),
                        Err(e) => {
                            &&& create_outcome(old(self)@, event, checkout_id) == Err::<
                                DatabaseView,
                                AppError,
                            >(e)
                            &&& final(self)@ == old(self)@
                        },
                    }
                },
            !old(self)@.has_book(event.book_id) <==> result == Err::<(), AppError>(
                AppError::EntityNotFound(event.book_id),
            ),
            old(self)@.has_book(event.book_id) && old(self)@.loan_of(event.book_id) is Some
                <==> result == Err::<(), AppError>(
                AppError::Conflict(Conflict::AlreadyCheckedOut { book_id: event.book_id }),
            ),
    {
        let checkout_id = CheckoutId::new();
        self.create_with_id(event, checkout_id)
    }

    /// Lends a book under the loan id `checkout_id`: adds the open loan, or
    /// fails and leaves the store as it is.
    pub fn create_with_id(&mut self, event: CreateCheckout, checkout_id: CheckoutId) -> (result:
        Result<(), AppError>)
        requires
            old(self)@.well_formed(),
        ensures
            final(self)@.well_formed(),
            match result {
                Ok(()) => create_outcome(old(self)@, event, checkout_id) == Ok::<
                    DatabaseView,
                    AppError,
                >(final(self)@),
                Err(e) => {
                    &&& create_outcome(old(self)@, event, checkout_id) == Err::<
                        DatabaseView,
                        AppError,
                    >(e)
                    &&& final(self)@ == old(self)@
                },
            },
    {
        let mut tx = self.db.begin();
        Self::set_transaction_serializable(&mut tx);
        match tx.create_checkout(event, checkout_id) {
            Err(e) => {
                tx.rollback();
                return Err(e);
            },
            Ok(()) => {},
        }
        self.db.commit(tx)
    }

    /// Takes a book back: moves its loan from the open loans to the
    /// history, or fails and leaves the store as it is.
    ///
    /// Fails with `EntityNotFound` exactly if there is no such book, and
    /// with `Conflict` exactly if the book exists and is not lent out under
    /// the given loan id to the given user.
    pub fn update_returned(&mut self, event: UpdateReturned) -> (result: Result<(), AppError>)
        requires
            old(self)@.well_formed(),
        ensures
            final(self)@.well_formed(),
            !old(self)@.has_book(event.book_id) <==> result == Err::<(), AppError>(
                AppError::EntityNotFound(event.book_id),
            ),
            old(self)@.has_book(event.book_id) && !returns_open_loan(old(self)@, event)
                <==> result == Err::<(), AppError>(
                AppError::Conflict(
                    Conflict::ReturnDoesNotMatch {
                        checkout_id: event.checkout_id,
                        returned_by: event.returned_by,
                        book_id: event.book_id,
                    },
                ),
            ),
            match result {
                Ok(()) => update_returned_outcome(old(self)@, event) == Ok::<
                    DatabaseView,
                    AppError,
                >(final(self)@),
                Err(e) => {
                    &&& update_returned_outcome(old(self)@, event) == Err::<DatabaseView, AppError>(
                        e,
                    )
                    &&& final(self)@ == old(self)@
                },
            },
    {
        let mut tx = self.db.begin();
        Self::set_transaction_serializable(&mut tx);
        match tx.record_return(event) {
            Err(e) => {
                tx.rollback();
                return Err(e);
            },
            Ok(()) => {},
        }
        self.db.commit(tx)
    }

    /// Lists every open loan, the oldest checkout first.
    pub fn find_unreturned_all(&self) -> (result: Result<Vec<Checkout>, AppError>)
        ensures
            result is Ok,
            result->Ok_0@ == checkouts_of(self@.unreturned(LoanFilter::All)),
    {
        Ok(into_checkouts(self.db.select_unreturned(LoanFilter::All)))
    }

    /// Lists the open loans of one borrower, the oldest checkout first.
    pub fn find_unreturned_by_user_id(&self, user_id: UserId) -> (result: Result<
        Vec<Checkout>,
        AppError,
    >)
        ensures
            result is Ok,
            result->Ok_0@ == checkouts_of(self@.unreturned(LoanFilter::ByUser(user_id))),
    {
        Ok(into_checkouts(self.db.select_unreturned(LoanFilter::ByUser(user_id))))
    }

    /// Lists the loans of a book: its open loan first, if it has one, then
    /// its returned loans, the latest return first.
    pub fn find_history_by_book_id(&self, book_id: BookId) -> (result: Result<
        Vec<Checkout>,
        AppError,
    >)
        ensures
            result is Ok,
            result->Ok_0@ == history_of(self@, book_id),
    {
        let checkout = match self.find_unreturned_by_book_id(book_id) {
            Ok(checkout) => checkout,
            Err(e) => {
                return Err(e);
            },
        };
        let checkout_histories = into_checkouts(self.db.select_returned_by_book(book_id));
        Ok(merge_history(checkout, checkout_histories))
    }

    /// Raises the isolation level of the transaction to serializable.
    fn set_transaction_serializable(tx: &mut Transaction)
        ensures
            final(tx)@ == (TransactionView { serializable: true, ..old(tx)@ }),
    {
        tx.set_serializable();
    }

    /// The open loan of a book, if it has one.
    fn find_unreturned_by_book_id(&self, book_id: BookId) -> (result: Result<
        Option<Checkout>,
        AppError,
    >)
        ensures
            result is Ok,
            ({
                let open = self@.unreturned(LoanFilter::ByBook(book_id));
                result->Ok_0 == if open.len() > 0 {
                    Some(Checkout::from_spec(open[0]))
                } else {
                    None
                }
            }),
    {
        let rows = self.db.select_unreturned(LoanFilter::ByBook(book_id));
        if rows.len() > 0 {
            Ok(Some(Checkout::from(rows[0].clone())))
        } else {
            Ok(None)
        }
    }
}

} // verus!
