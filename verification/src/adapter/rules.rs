//! The rules of lending: what a loan request is checked against before
//! anything is written, and what a write must report afterwards.
//!
//! The rules read the state of a book as one row, so they hold for any store
//! that can produce that row.
use vstd::prelude::*;
use crate::adapter::database::model::CheckoutStateRow;
use crate::error::{AppError, Conflict, FailedWrite};
use crate::kernel::model::checkout::{CreateCheckout, UpdateReturned};

verus! {

/// Whether a book in this state may be lent: the book must exist and must
/// not be lent out, whoever asks.
pub open spec fn checkout_verdict(state: Option<CheckoutStateRow>, event: CreateCheckout) -> Result<
    (),
    AppError,
> {
    match state {
        None => Err(AppError::EntityNotFound(event.book_id)),
        Some(row) => if row.checkout_id is Some {
            Err(AppError::Conflict(Conflict::AlreadyCheckedOut { book_id: event.book_id }))
        } else {
            Ok(())
        },
    }
}

/// Whether a book in this state may be taken back: the book must exist and
/// must be lent out under the given loan id to the given user.
pub open spec fn return_verdict(state: Option<CheckoutStateRow>, event: UpdateReturned) -> Result<
    (),
    AppError,
> {
    match state {
        None => Err(AppError::EntityNotFound(event.book_id)),
        Some(row) => if row.checkout_id == Some(event.checkout_id) && row.user_id == Some(
            event.returned_by,
        ) {
            Ok(())
        } else {
            Err(
                AppError::Conflict(
                    Conflict::ReturnDoesNotMatch {
                        checkout_id: event.checkout_id,
                        returned_by: event.returned_by,
                        book_id: event.book_id,
                    },
                ),
            )
        },
    }
}

/// Decides whether the book may be lent.
pub fn verify_checkout(state: Option<CheckoutStateRow>, event: &CreateCheckout) -> (verdict: Result<
    (),
    AppError,
>)
    ensures
        verdict == checkout_verdict(state, *event),
{
    match state {
        None => Err(AppError::EntityNotFound(event.book_id)),
        Some(row) => match row.checkout_id {
            Some(_) => Err(
                AppError::Conflict(Conflict::AlreadyCheckedOut { book_id: event.book_id }),
            ),
            None => Ok(()),
        },
    }
}

/// Decides whether the book may be taken back.
pub fn verify_return(state: Option<CheckoutStateRow>, event: &UpdateReturned) -> (verdict: Result<
    (),
    AppError,
>)
    ensures
        verdict == return_verdict(state, *event),
{
    let mismatch = AppError::Conflict(
        Conflict::ReturnDoesNotMatch {
            checkout_id: event.checkout_id,
            returned_by: event.returned_by,
            book_id: event.book_id,
        },
    );
    match state {
        None => Err(AppError::EntityNotFound(event.book_id)),
        Some(row) => match (row.checkout_id, row.user_id) {
            (Some(checkout_id), Some(user_id)) => {
                if checkout_id == event.checkout_id && user_id == event.returned_by {
                    Ok(())
                } else {
                    Err(mismatch)
                }
            },
            _ => Err(mismatch),
        },
    }
}

/// Decides whether a write took effect: it must have changed a row.
pub fn verify_rows_affected(rows: u64, write: FailedWrite) -> (verdict: Result<(), AppError>)
    ensures
        verdict == if rows >= 1 {
            Ok::<(), AppError>(())
        } else {
            Err::<(), AppError>(AppError::UnprocessableState(write))
        },
{
    if rows < 1 {
        Err(AppError::UnprocessableState(write))
    } else {
        Ok(())
    }
}

} // verus!
