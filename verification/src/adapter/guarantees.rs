//! What holds of the loans, whatever is asked of the repository.
//!
//! Each statement here is proved from the definitions that the contracts of
//! the store, the transactions and the repository are written in.
use vstd::prelude::*;
use vstd::std_specs::convert::FromSpec;
use crate::adapter::coordinator::Request;
use crate::adapter::database::keys::{lemma_position, lemma_position_of_entry, position};
use crate::adapter::database::model::CheckoutRow;
use crate::adapter::database::order::{lemma_insert_ordered, ordered, insert_ordered, RowOrder};
use crate::adapter::database::store::{DatabaseView, LoanFilter};
use crate::adapter::database::transaction::{
    checkout_outcome, commit_fault, committed, lemma_checkout_outcome, lemma_return_outcome,
    new_loan, return_outcome, TransactionView,
};
use crate::adapter::repository::checkout::{
    checkouts_of, create_outcome, history_of, update_returned_outcome,
};
use crate::error::{AppError, Conflict, TransactionFault};
use crate::kernel::model::checkout::{Checkout, CreateCheckout, UpdateReturned};
use crate::kernel::model::id::{BookId, CheckoutId};

verus! {

/// At most one loan is open per book: two rows of the open loans never name
/// the same book.
pub proof fn lemma_one_open_loan_per_book(db: DatabaseView, i: int, j: int)
    requires
        db.well_formed(),
        0 <= i < db.checkouts.len(),
        0 <= j < db.checkouts.len(),
        i != j,
    ensures
        db.checkouts[i].book_id != db.checkouts[j].book_id,
{
    assert(db.lent_book_ids()[i] != db.lent_book_ids()[j]);
}

/// The open loan of a book is the one row of the open loans that names it.
pub proof fn lemma_loan_of(db: DatabaseView, book_id: BookId)
    requires
        db.well_formed(),
    ensures
        match db.loan_of(book_id) {
            Some(loan) => db.checkouts.contains(loan) && loan.book_id == book_id,
            None => forall|i: int|
                0 <= i < db.checkouts.len() ==> db.checkouts[i].book_id != book_id,
        },
        forall|i: int|
            0 <= i < db.checkouts.len() && db.checkouts[i].book_id == book_id ==> db.loan_of(
                book_id,
            ) == Some(db.checkouts[i]),
{
    lemma_position(db.lent_book_ids(), book_id.0);
    assert forall|i: int|
        0 <= i < db.checkouts.len() && db.checkouts[i].book_id == book_id implies db.loan_of(
        book_id,
    ) == Some(db.checkouts[i]) by {
        assert(db.lent_book_ids()[i] == book_id.0);
        lemma_position_of_entry(db.lent_book_ids(), i);
    }
    if let Some(i) = position(db.lent_book_ids(), book_id.0) {
        assert(db.lent_book_ids()[i] == book_id.0);
        assert(db.checkouts[i].book_id.0 == book_id.0);
    } else {
        assert forall|i: int| 0 <= i < db.checkouts.len() implies db.checkouts[i].book_id
            != book_id by {
            assert(db.lent_book_ids()[i] != book_id.0);
        }
    }
}

/// Whatever a request does, the store stays well formed: lending, taking
/// back and committing each lead from a well-formed store to a well-formed
/// store.
pub proof fn lemma_store_stays_well_formed(
    db: DatabaseView,
    create: CreateCheckout,
    checkout_id: CheckoutId,
    update: UpdateReturned,
    tx: TransactionView,
)
    requires
        db.well_formed(),
    ensures
        create_outcome(db, create, checkout_id) is Ok ==> create_outcome(
            db,
            create,
            checkout_id,
        )->Ok_0.well_formed(),
        update_returned_outcome(db, update) is Ok ==> update_returned_outcome(
            db,
            update,
        )->Ok_0.well_formed(),
        tx.tables.well_formed() ==> committed(db, tx).well_formed(),
{
    if create_outcome(db, create, checkout_id) is Ok {
        lemma_checkout_outcome(db, create, checkout_id);
        let staged = checkout_outcome(db, create, checkout_id)->Ok_0;
        lemma_version_is_no_key(staged, (db.version + 1) as u64);
    }
    if update_returned_outcome(db, update) is Ok {
        lemma_return_outcome(db, update);
        let staged = return_outcome(db, update)->Ok_0;
        lemma_version_is_no_key(staged, (db.version + 1) as u64);
    }
    if tx.tables.well_formed() {
        lemma_version_is_no_key(tx.tables, (db.version + 1) as u64);
    }
}

/// The version of a store has no part in what its tables hold.
pub proof fn lemma_version_is_no_key(db: DatabaseView, version: u64)
    ensures
        ({
            let other = DatabaseView { version, ..db };
            &&& other.well_formed() == db.well_formed()
            &&& forall|book_id: BookId| #[trigger] other.has_book(book_id) == db.has_book(book_id)
            &&& forall|book_id: BookId| #[trigger] other.loan_of(book_id) == db.loan_of(book_id)
            &&& forall|checkout_id: CheckoutId| #[trigger]
                other.knows_checkout(checkout_id) == db.knows_checkout(checkout_id)
            &&& forall|book_id: BookId| #[trigger]
                other.checkout_state(book_id) == db.checkout_state(book_id)
        }),
{
    let other = DatabaseView { version, ..db };
    assert(other.user_ids() =~= db.user_ids());
    assert(other.book_ids() =~= db.book_ids());
    assert(other.checkout_ids() =~= db.checkout_ids());
    assert(other.returned_ids() =~= db.returned_ids());
    assert(other.lent_book_ids() =~= db.lent_book_ids());
}

/// A book that does not exist cannot be lent, and a book that is lent out
/// cannot be lent again, whoever asks and under whatever loan id.
pub proof fn lemma_checkout_refused(
    db: DatabaseView,
    event: CreateCheckout,
    checkout_id: CheckoutId,
)
    ensures
        !db.has_book(event.book_id) ==> create_outcome(db, event, checkout_id) == Err::<
            DatabaseView,
            AppError,
        >(AppError::EntityNotFound(event.book_id)),
        db.has_book(event.book_id) && db.loan_of(event.book_id) is Some ==> create_outcome(
            db,
            event,
            checkout_id,
        ) == Err::<DatabaseView, AppError>(
            AppError::Conflict(Conflict::AlreadyCheckedOut { book_id: event.book_id }),
        ),
{
}

/// A checkout succeeds exactly if the book exists and is not lent out and
/// the loan id is new to the store, unless the store has run out of
/// versions.
pub proof fn lemma_checkout_accepted(
    db: DatabaseView,
    event: CreateCheckout,
    checkout_id: CheckoutId,
)
    requires
        db.version < u64::MAX,
    ensures
        create_outcome(db, event, checkout_id) is Ok <==> {
            &&& db.has_book(event.book_id)
            &&& db.loan_of(event.book_id) is None
            &&& !db.knows_checkout(checkout_id)
        },
{
}

/// A return that does not match the open loan of the book is refused as a
/// conflict: when the book is lent under another loan id, or to another
/// user, or is not lent at all.
pub proof fn lemma_return_refused(db: DatabaseView, event: UpdateReturned)
    requires
        db.has_book(event.book_id),
        match db.loan_of(event.book_id) {
            Some(loan) => loan.checkout_id != event.checkout_id || loan.user_id
                != event.returned_by,
            None => true,
        },
    ensures
        update_returned_outcome(db, event) == Err::<DatabaseView, AppError>(
            AppError::Conflict(
                Conflict::ReturnDoesNotMatch {
                    checkout_id: event.checkout_id,
                    returned_by: event.returned_by,
                    book_id: event.book_id,
                },
            ),
        ),
{
}

/// A return succeeds exactly if the book exists and is lent out under the
/// given loan id to the given user, unless the store has run out of
/// versions.
pub proof fn lemma_return_accepted(db: DatabaseView, event: UpdateReturned)
    requires
        db.version < u64::MAX,
    ensures
        update_returned_outcome(db, event) is Ok <==> {
            &&& db.has_book(event.book_id)
            &&& db.loan_of(event.book_id) matches Some(loan)
            &&& loan.checkout_id == event.checkout_id
            &&& loan.user_id == event.returned_by
        },
{
}

/// A successful return takes exactly one row out of the open loans and adds
/// exactly one row to the history, with the same loan id, book, borrower
/// and time of checkout, and leaves every other row of both tables alone.
pub proof fn lemma_return_moves_one_loan(db: DatabaseView, event: UpdateReturned) -> (i: int)
    requires
        db.well_formed(),
        update_returned_outcome(db, event) is Ok,
    ensures
        0 <= i < db.checkouts.len(),
        ({
            let next = update_returned_outcome(db, event)->Ok_0;
            let loan = db.checkouts[i];
            let closed = next.returned_checkouts.last();
            &&& next.checkouts == db.checkouts.remove(i)
            &&& next.checkouts.len() == db.checkouts.len() - 1
            &&& next.returned_checkouts == db.returned_checkouts.push(closed)
            &&& next.returned_checkouts.len() == db.returned_checkouts.len() + 1
            &&& loan.checkout_id == event.checkout_id
            &&& loan.book_id == event.book_id
            &&& loan.user_id == event.returned_by
            &&& closed.checkout_id == loan.checkout_id
            &&& closed.book_id == loan.book_id
            &&& closed.user_id == loan.user_id
            &&& closed.checked_out_at == loan.checked_out_at
            &&& closed.returned_at == event.returned_at
            &&& next.users == db.users
            &&& next.books == db.books
        }),
{
    lemma_return_outcome(db, event)
}

/// The history is only ever added to: a checkout leaves it as it is, and a
/// return puts one row at its end.
pub proof fn lemma_history_is_kept(
    db: DatabaseView,
    create: CreateCheckout,
    checkout_id: CheckoutId,
    update: UpdateReturned,
)
    requires
        db.well_formed(),
    ensures
        create_outcome(db, create, checkout_id) matches Ok(next)
            ==> next.returned_checkouts == db.returned_checkouts,
        update_returned_outcome(db, update) matches Ok(next) ==> db.returned_checkouts
            == next.returned_checkouts.drop_last(),
{
    if create_outcome(db, create, checkout_id) is Ok {
        lemma_checkout_outcome(db, create, checkout_id);
    }
    if update_returned_outcome(db, update) is Ok {
        lemma_return_outcome(db, update);
        let next = update_returned_outcome(db, update)->Ok_0;
        assert(next.returned_checkouts.drop_last() =~= db.returned_checkouts);
    }
}

/// The coordinator and the repository do the same: carried out step by
/// step, a request has the outcome that the repository gives it.
pub proof fn lemma_coordinator_agrees_with_repository(
    db: DatabaseView,
    create: CreateCheckout,
    checkout_id: CheckoutId,
    update: UpdateReturned,
)
    ensures
        (Request::Checkout { event: create, checkout_id }).outcome(db) == create_outcome(
            db,
            create,
            checkout_id,
        ),
        (Request::Return { event: update }).outcome(db) == update_returned_outcome(db, update),
{
}

/// A loan that is returned no earlier than it was checked out is closed no
/// earlier than it began.
pub proof fn lemma_return_is_not_before_checkout(db: DatabaseView, event: UpdateReturned)
    requires
        db.well_formed(),
        update_returned_outcome(db, event) is Ok,
        db.loan_of(event.book_id)->0.checked_out_at.0 <= event.returned_at.0,
    ensures
        ({
            let closed = update_returned_outcome(db, event)->Ok_0.returned_checkouts.last();
            closed.checked_out_at.0 <= closed.returned_at.0
        }),
{
    lemma_return_outcome(db, event);
}

/// Of two serializable transactions that begin on the same store and lend
/// the same book, exactly one is committed: the first commit succeeds, the
/// second is refused with a serialization failure and changes nothing, and
/// asked again on the store as it then is, the second request meets a
/// conflict. At no point has the book two open loans.
pub proof fn lemma_concurrent_checkouts(
    db: DatabaseView,
    first: CreateCheckout,
    first_id: CheckoutId,
    second: CreateCheckout,
    second_id: CheckoutId,
)
    requires
        db.well_formed(),
        db.version < u64::MAX,
        first.book_id == second.book_id,
        checkout_outcome(db, first, first_id) is Ok,
        checkout_outcome(db, second, second_id) is Ok,
    ensures
        ({
            let winner = TransactionView {
                tables: checkout_outcome(db, first, first_id)->Ok_0,
                serializable: true,
            };
            let loser = TransactionView {
                tables: checkout_outcome(db, second, second_id)->Ok_0,
                serializable: true,
            };
            let after = committed(db, winner);
            &&& commit_fault(db, winner) is None
            &&& commit_fault(after, loser) == Some(TransactionFault::SerializationFailure)
            &&& after.well_formed()
            &&& after.loan_of(first.book_id) == Some(new_loan(first, first_id))
            &&& create_outcome(after, second, second_id) == Err::<DatabaseView, AppError>(
                AppError::Conflict(Conflict::AlreadyCheckedOut { book_id: second.book_id }),
            )
        }),
{
    lemma_checkout_outcome(db, first, first_id);
    lemma_checkout_outcome(db, second, second_id);
    let staged = checkout_outcome(db, first, first_id)->Ok_0;
    lemma_version_is_no_key(staged, (db.version + 1) as u64);
}

/// A book that was lent stays lent until it is returned: once a checkout
/// has succeeded, every further checkout of the book meets a conflict,
/// whoever asks.
pub proof fn lemma_lent_book_cannot_be_lent(
    db: DatabaseView,
    first: CreateCheckout,
    first_id: CheckoutId,
    second: CreateCheckout,
    second_id: CheckoutId,
)
    requires
        db.well_formed(),
        first.book_id == second.book_id,
        create_outcome(db, first, first_id) is Ok,
    ensures
        ({
            let lent = create_outcome(db, first, first_id)->Ok_0;
            &&& lent.well_formed()
            &&& lent.loan_of(first.book_id) == Some(new_loan(first, first_id))
            &&& create_outcome(lent, second, second_id) == Err::<DatabaseView, AppError>(
                AppError::Conflict(Conflict::AlreadyCheckedOut { book_id: second.book_id }),
            )
        }),
{
    lemma_checkout_outcome(db, first, first_id);
    let staged = checkout_outcome(db, first, first_id)->Ok_0;
    lemma_version_is_no_key(staged, (db.version + 1) as u64);
}

/// The borrower can return a book that was lent, and then the book can be
/// lent again: after a checkout, the return under the loan's id by its
/// borrower succeeds, and after that return a checkout of the book under a
/// loan id that the store has not seen succeeds too, as long as the store
/// has versions left.
pub proof fn lemma_returned_book_can_be_lent(
    db: DatabaseView,
    first: CreateCheckout,
    first_id: CheckoutId,
    back: UpdateReturned,
    second: CreateCheckout,
    second_id: CheckoutId,
)
    requires
        db.well_formed(),
        db.version < u64::MAX - 2,
        create_outcome(db, first, first_id) is Ok,
        back.checkout_id == first_id,
        back.book_id == first.book_id,
        back.returned_by == first.checked_out_by,
        second.book_id == first.book_id,
        second_id != first_id,
        !db.knows_checkout(second_id),
    ensures
        ({
            let lent = create_outcome(db, first, first_id)->Ok_0;
            &&& update_returned_outcome(lent, back) is Ok
            &&& ({
                let free = update_returned_outcome(lent, back)->Ok_0;
                &&& free.well_formed()
                &&& free.loan_of(first.book_id) is None
                &&& create_outcome(free, second, second_id) is Ok
                &&& create_outcome(free, second, second_id)->Ok_0.loan_of(first.book_id) == Some(
                    new_loan(second, second_id),
                )
            })
        }),
{
    lemma_checkout_outcome(db, first, first_id);
    let staged = checkout_outcome(db, first, first_id)->Ok_0;
    lemma_version_is_no_key(staged, (db.version + 1) as u64);
    let lent = create_outcome(db, first, first_id)->Ok_0;
    assert(return_outcome(lent, back) is Ok);
    let i = lemma_return_outcome(lent, back);
    let returned = return_outcome(lent, back)->Ok_0;
    lemma_version_is_no_key(returned, (lent.version + 1) as u64);
    let free = update_returned_outcome(lent, back)->Ok_0;
    assert(!free.knows_checkout(second_id)) by {
        lemma_position(db.checkout_ids(), second_id.0);
        lemma_position(db.returned_ids(), second_id.0);
        lemma_position(free.checkout_ids(), second_id.0);
        lemma_position(free.returned_ids(), second_id.0);
        if let Some(a) = position(free.checkout_ids(), second_id.0) {
            let a0 = if a < i {
                a
            } else {
                a + 1
            };
            assert(free.checkouts[a] == lent.checkouts[a0]);
            assert(lent.checkouts[a0].checkout_id == second_id);
            if a0 < db.checkouts.len() {
                assert(db.checkout_ids()[a0] == second_id.0);
            }
        }
        if let Some(b) = position(free.returned_ids(), second_id.0) {
            if b < db.returned_checkouts.len() {
                assert(db.returned_ids()[b] == second_id.0);
            }
        }
    }
    lemma_checkout_outcome(free, second, second_id);
    let again = checkout_outcome(free, second, second_id)->Ok_0;
    lemma_version_is_no_key(again, (free.version + 1) as u64);
}

/// Whether `row` is one of the first `n` open loans, joined with its book
/// and its borrower, and `filter` asks for it.
pub open spec fn is_open_loan(
    db: DatabaseView,
    filter: LoanFilter,
    n: int,
    row: CheckoutRow,
) -> bool {
    exists|i: int|
        0 <= i < n && filter.admits(#[trigger] db.checkouts[i]) && db.join_checkout(
            db.checkouts[i],
        ) == Some(row)
}

/// Whether `row` is one of the first `n` returned loans, joined with its
/// book and its borrower, and a loan of the book.
pub open spec fn is_returned_loan(
    db: DatabaseView,
    book_id: BookId,
    n: int,
    row: CheckoutRow,
) -> bool {
    exists|i: int|
        0 <= i < n && (#[trigger] db.returned_checkouts[i]).book_id == book_id
            && db.join_returned(db.returned_checkouts[i]) == Some(row)
}

/// A listing of open loans holds the loans that were asked for and no
/// others, the oldest checkout first.
pub proof fn lemma_unreturned_listing(db: DatabaseView, filter: LoanFilter, n: int)
    requires
        0 <= n <= db.checkouts.len(),
    ensures
        ordered(db.unreturned_rows(filter, n), RowOrder::OldestCheckoutFirst),
        db.unreturned_rows(filter, n).len() <= n,
        forall|row: CheckoutRow|
            db.unreturned_rows(filter, n).contains(row) <==> is_open_loan(db, filter, n, row),
        forall|k: int|
            0 <= k < db.unreturned_rows(filter, n).len() ==> (#[trigger] db.unreturned_rows(
                filter,
                n,
            )[k]).returned_at is None,
    decreases n,
{
    if n > 0 {
        lemma_unreturned_listing(db, filter, n - 1);
        let rest = db.unreturned_rows(filter, n - 1);
        let rows = db.unreturned_rows(filter, n);
        let loan = db.checkouts[n - 1];
        match db.join_checkout(loan) {
            Some(joined) if filter.admits(loan) => {
                lemma_insert_ordered(rest, joined, RowOrder::OldestCheckoutFirst);
                assert forall|row: CheckoutRow| rows.contains(row) <==> is_open_loan(
                    db,
                    filter,
                    n,
                    row,
                ) by {
                    if rest.contains(row) {
                        assert(is_open_loan(db, filter, n - 1, row));
                    }
                    if is_open_loan(db, filter, n, row) {
                        let i = choose|i: int|
                            0 <= i < n && filter.admits(#[trigger] db.checkouts[i])
                                && db.join_checkout(db.checkouts[i]) == Some(row);
                        if i < n - 1 {
                            assert(is_open_loan(db, filter, n - 1, row));
                        }
                    }
                    if row == joined {
                        assert(filter.admits(db.checkouts[n - 1]));
                    }
                }
                assert forall|k: int| 0 <= k < rows.len() implies (#[trigger] rows[k]).returned_at
                    is None by {
                    assert(rows.contains(rows[k]));
                    if rows[k] != joined {
                        assert(rest.contains(rows[k]));
                    }
                }
            },
            _ => {
                assert forall|row: CheckoutRow| rows.contains(row) <==> is_open_loan(
                    db,
                    filter,
                    n,
                    row,
                ) by {
                    if rest.contains(row) {
                        assert(is_open_loan(db, filter, n - 1, row));
                    }
                    if is_open_loan(db, filter, n, row) {
                        let i = choose|i: int|
                            0 <= i < n && filter.admits(#[trigger] db.checkouts[i])
                                && db.join_checkout(db.checkouts[i]) == Some(row);
                        assert(i < n - 1);
                        assert(is_open_loan(db, filter, n - 1, row));
                    }
                }
            },
        }
    } else {
        assert forall|row: CheckoutRow|
            db.unreturned_rows(filter, n).contains(row) <==> is_open_loan(
                db,
                filter,
                n,
                row,
            ) by {}
    }
}

/// A listing of the returned loans of a book holds those loans and no
/// others, the latest return first.
pub proof fn lemma_returned_listing(db: DatabaseView, book_id: BookId, n: int)
    requires
        0 <= n <= db.returned_checkouts.len(),
    ensures
        ordered(db.returned_rows(book_id, n), RowOrder::LatestReturnFirst),
        db.returned_rows(book_id, n).len() <= n,
        forall|row: CheckoutRow|
            db.returned_rows(book_id, n).contains(row) <==> is_returned_loan(db, book_id, n, row),
        forall|k: int|
            0 <= k < db.returned_rows(book_id, n).len() ==> (#[trigger] db.returned_rows(
                book_id,
                n,
            )[k]).returned_at is Some,
    decreases n,
{
    if n > 0 {
        lemma_returned_listing(db, book_id, n - 1);
        let rest = db.returned_rows(book_id, n - 1);
        let rows = db.returned_rows(book_id, n);
        let loan = db.returned_checkouts[n - 1];
        match db.join_returned(loan) {
            Some(joined) if loan.book_id == book_id => {
                lemma_insert_ordered(rest, joined, RowOrder::LatestReturnFirst);
                assert forall|row: CheckoutRow| rows.contains(row) <==> is_returned_loan(
                    db,
                    book_id,
                    n,
                    row,
                ) by {
                    if rest.contains(row) {
                        assert(is_returned_loan(db, book_id, n - 1, row));
                    }
                    if is_returned_loan(db, book_id, n, row) {
                        let i = choose|i: int|
                            0 <= i < n && (#[trigger] db.returned_checkouts[i]).book_id == book_id
                                && db.join_returned(db.returned_checkouts[i]) == Some(row);
                        if i < n - 1 {
                            assert(is_returned_loan(db, book_id, n - 1, row));
                        }
                    }
                    if row == joined {
                        assert(db.returned_checkouts[n - 1].book_id == book_id);
                    }
                }
                assert forall|k: int| 0 <= k < rows.len() implies (#[trigger] rows[k]).returned_at
                    is Some by {
                    assert(rows.contains(rows[k]));
                    if rows[k] != joined {
                        assert(rest.contains(rows[k]));
                    }
                }
            },
            _ => {
                assert forall|row: CheckoutRow| rows.contains(row) <==> is_returned_loan(
                    db,
                    book_id,
                    n,
                    row,
                ) by {
                    if rest.contains(row) {
                        assert(is_returned_loan(db, book_id, n - 1, row));
                    }
                    if is_returned_loan(db, book_id, n, row) {
                        let i = choose|i: int|
                            0 <= i < n && (#[trigger] db.returned_checkouts[i]).book_id == book_id
                                && db.join_returned(db.returned_checkouts[i]) == Some(row);
                        assert(i < n - 1);
                        assert(is_returned_loan(db, book_id, n - 1, row));
                    }
                }
            },
        }
    } else {
        assert forall|row: CheckoutRow|
            db.returned_rows(book_id, n).contains(row) <==> is_returned_loan(
                db,
                book_id,
                n,
                row,
            ) by {}
    }
}

/// The listing of the open loan of a book holds at most one row: the
/// book's open loan, if its book and borrower are in the tables.
pub proof fn lemma_open_loan_listing(db: DatabaseView, book_id: BookId, n: int)
    requires
        db.well_formed(),
        0 <= n <= db.checkouts.len(),
    ensures
        db.unreturned_rows(LoanFilter::ByBook(book_id), n) == match position(
            db.lent_book_ids(),
            book_id.0,
        ) {
            Some(i) if i < n => match db.join_checkout(db.checkouts[i]) {
                Some(row) => seq![row],
                None => Seq::<CheckoutRow>::empty(),
            },
            _ => Seq::<CheckoutRow>::empty(),
        },
    decreases n,
{
    lemma_position(db.lent_book_ids(), book_id.0);
    if n > 0 {
        lemma_open_loan_listing(db, book_id, n - 1);
        let rest = db.unreturned_rows(LoanFilter::ByBook(book_id), n - 1);
        let loan = db.checkouts[n - 1];
        if loan.book_id == book_id {
            assert(db.lent_book_ids()[n - 1] == book_id.0);
            lemma_position_of_entry(db.lent_book_ids(), n - 1);
            assert(rest.len() == 0);
            match db.join_checkout(loan) {
                Some(row) => {
                    assert(insert_ordered(rest, row, RowOrder::OldestCheckoutFirst) =~= seq![row]);
                },
                None => {},
            }
        } else {
            if let Some(i) = position(db.lent_book_ids(), book_id.0) {
                assert(db.lent_book_ids()[i] == book_id.0);
                assert(i != n - 1);
            }
        }
    }
}

/// The history of a book begins with its open loan, if it has one whose
/// book and borrower are in the tables, whenever that loan began; behind it
/// stand the returned loans of the book, the latest return first.
pub proof fn lemma_history(db: DatabaseView, book_id: BookId)
    requires
        db.well_formed(),
    ensures
        ({
            let history = history_of(db, book_id);
            let returned = db.returned_of(book_id);
            let open = match db.loan_of(book_id) {
                Some(loan) => db.join_checkout(loan),
                None => None,
            };
            &&& ordered(returned, RowOrder::LatestReturnFirst)
            &&& match open {
                Some(row) => {
                    &&& history.len() == returned.len() + 1
                    &&& history[0] == Checkout::from_spec(row)
                    &&& history[0].returned_at is None
                    &&& history.subrange(1, history.len() as int) == checkouts_of(returned)
                },
                None => history == checkouts_of(returned),
            }
            &&& forall|k: int|
                0 <= k < returned.len() ==> (#[trigger] returned[k]).returned_at is Some
        }),
{
    lemma_open_loan_listing(db, book_id, db.checkouts.len() as int);
    lemma_returned_listing(db, book_id, db.returned_checkouts.len() as int);
    lemma_position(db.lent_book_ids(), book_id.0);
    let history = history_of(db, book_id);
    let returned = checkouts_of(db.returned_of(book_id));
    let open = db.unreturned(LoanFilter::ByBook(book_id));
    if open.len() > 0 {
        assert(history.subrange(1, history.len() as int) =~= returned);
    }
}

} // verus!
