//! Requests about loans.
use vstd::prelude::*;
use crate::adapter::database::store::LoanFilter;
use crate::adapter::repository::checkout::{
    checkouts_of, create_outcome, history_of, update_returned_outcome, CheckoutRepositoryImpl,
};
use crate::api::handler::{answers, StatusCode};
use crate::api::model::checkout::{checkout_responses_of, CheckoutsResponse};
use crate::error::{AppError, Conflict};
use crate::kernel::model::checkout::{CreateCheckout, UpdateReturned};
use crate::kernel::model::id::{is_random_uuid, BookId, CheckoutId, UserId};
use crate::kernel::model::time::Timestamp;

verus! {

/// Lends the book to the user who asks, as of now, under a fresh random
/// loan id, and answers `Created`.
///
/// Fails with `EntityNotFound` exactly if there is no such book, and with
/// `Conflict` exactly if the book exists and is lent out. Otherwise the
/// outcome is that of lending the book at the time that the clock showed,
/// under the id that was drawn.
pub fn checkout_book(
    repository: &mut CheckoutRepositoryImpl,
    user_id: UserId,
    book_id: BookId,
) -> (result: Result<StatusCode, AppError>)
    requires
        old(repository)@.well_formed(),
    ensures
        final(repository)@.well_formed(),
        exists|checkout_id: CheckoutId, now: Timestamp|
            {
                &&& is_random_uuid(checkout_id.0)
                &&& now.0 >= 0
                &&& answers(
                    old(repository)@,
                    final(repository)@,
                    result,
                    #[trigger] create_outcome(
                        old(repository)@,
                        CreateCheckout { book_id, checked_out_by: user_id, checked_out_at: now },
                        checkout_id,
                    ),
                    StatusCode::Created,
                )
            },
        !old(repository)@.has_book(book_id) <==> result == Err::<StatusCode, AppError>(
            AppError::EntityNotFound(book_id),
        ),
        old(repository)@.has_book(book_id) && old(repository)@.loan_of(book_id) is Some
            <==> result == Err::<StatusCode, AppError>(
            AppError::Conflict(Conflict::AlreadyCheckedOut { book_id }),
        ),
{
    checkout_book_at(repository, user_id, book_id, Timestamp::now())
}

/// Lends the book to the user who asks, as of `now`, under a fresh random
/// loan id, and answers `Created`.
///
/// Fails with `EntityNotFound` exactly if there is no such book, and with
/// `Conflict` exactly if the book exists and is lent out.
pub fn checkout_book_at(
    repository: &mut CheckoutRepositoryImpl,
    user_id: UserId,
    book_id: BookId,
    now: Timestamp,
) -> (result: Result<StatusCode, AppError>)
    requires
        old(repository)@.well_formed(),
    ensures
        final(repository)@.well_formed(),
        exists|checkout_id: CheckoutId|
            {
                &&& is_random_uuid(checkout_id.0)
                &&& answers(
                    old(repository)@,
                    final(repository)@,
                    result,
                    #[trigger] create_outcome(
                        old(repository)@,
                        CreateCheckout { book_id, checked_out_by: user_id, checked_out_at: now },
                        checkout_id,
                    ),
                    StatusCode::Created,
                )
            },
        !old(repository)@.has_book(book_id) <==> result == Err::<StatusCode, AppError>(
            AppError::EntityNotFound(book_id),
        ),
        old(repository)@.has_book(book_id) && old(repository)@.loan_of(book_id) is Some
            <==> result == Err::<StatusCode, AppError>(
            AppError::Conflict(Conflict::AlreadyCheckedOut { book_id }),
        ),
{
    let create_checkout_history = CreateCheckout::new(book_id, user_id, now);
    match repository.create(create_checkout_history) {
        Ok(()) => Ok(StatusCode::Created),
        Err(e) => Err(e),
    }
}

/// Takes the book back from the user who asks, as of now, and answers
/// `Created`; or fails and leaves the loans as they are. The outcome is that
/// of taking the book back at the time that the clock showed.
pub fn return_book(
    repository: &mut CheckoutRepositoryImpl,
    user_id: UserId,
    book_id: BookId,
    checkout_id: CheckoutId,
) -> (result: Result<StatusCode, AppError>)
    requires
        old(repository)@.well_formed(),
    ensures
        final(repository)@.well_formed(),
        exists|now: Timestamp|
            {
                &&& now.0 >= 0
                &&& answers(
                    old(repository)@,
                    final(repository)@,
                    result,
                    #[trigger] update_returned_outcome(
                        old(repository)@,
                        UpdateReturned {
                            checkout_id,
                            book_id,
                            returned_by: user_id,
                            returned_at: now,
                        },
                    ),
                    StatusCode::Created,
                )
            },
{
    return_book_at(repository, user_id, book_id, checkout_id, Timestamp::now())
}

/// Takes the book back from the user who asks, as of `now`, and answers
/// `Created`; or fails and leaves the loans as they are.
pub fn return_book_at(
    repository: &mut CheckoutRepositoryImpl,
    user_id: UserId,
    book_id: BookId,
    checkout_id: CheckoutId,
    now: Timestamp,
) -> (result: Result<StatusCode, AppError>)
    requires
        old(repository)@.well_formed(),
    ensures
        final(repository)@.well_formed(),
        answers(
            old(repository)@,
            final(repository)@,
            result,
            update_returned_outcome(
                old(repository)@,
                UpdateReturned { checkout_id, book_id, returned_by: user_id, returned_at: now },
            ),
            StatusCode::Created,
        ),
{
    let update_returned = UpdateReturned::new(checkout_id, book_id, user_id, now);
    match repository.update_returned(update_returned) {
        Ok(()) => Ok(StatusCode::Created),
        Err(e) => Err(e),
    }
}

/// Lists every open loan, the oldest checkout first.
pub fn show_checked_out_list(repository: &CheckoutRepositoryImpl) -> (result: Result<
    CheckoutsResponse,
    AppError,
>)
    ensures
        result is Ok,
        result->Ok_0.items@ == checkout_responses_of(
            checkouts_of(repository@.unreturned(LoanFilter::All)),
        ),
{
    match repository.find_unreturned_all() {
        Ok(checkouts) => Ok(CheckoutsResponse::from(checkouts)),
        Err(e) => Err(e),
    }
}

/// Lists the loans of a book: its open loan first, if it has one, then its
/// returned loans, the latest return first.
pub fn checkout_history(repository: &CheckoutRepositoryImpl, book_id: BookId) -> (result: Result<
    CheckoutsResponse,
    AppError,
>)
    ensures
        result is Ok,
        result->Ok_0.items@ == checkout_responses_of(history_of(repository@, book_id)),
{
    match repository.find_history_by_book_id(book_id) {
        Ok(checkouts) => Ok(CheckoutsResponse::from(checkouts)),
        Err(e) => Err(e),
    }
}

} // verus!
