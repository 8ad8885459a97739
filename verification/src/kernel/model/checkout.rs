//! Loans, as the loan listings show them, and the events that open and close
//! a loan.
use vstd::prelude::*;
use crate::kernel::model::id::{BookId, CheckoutId, UserId};
use crate::kernel::model::time::Timestamp;
use crate::kernel::model::user::CheckoutUser;

verus! {

/// One loan of a book: still open while `returned_at` is `None`.
#[derive(Debug, PartialEq, Eq)]
pub struct Checkout {
    pub id: CheckoutId,
    pub checked_out_by: CheckoutUser,
    pub checked_out_at: Timestamp,
    pub returned_at: Option<Timestamp>,
    pub book: CheckoutBook,
}

/// The book of a loan, as far as a loan listing shows it.
#[derive(Debug, PartialEq, Eq)]
pub struct CheckoutBook {
    pub book_id: BookId,
    pub title: String,
    pub author: String,
    pub isbn: String,
}

impl Clone for CheckoutBook {
    fn clone(&self) -> (copy: Self)
        ensures
            copy == *self,
    {
        CheckoutBook {
            book_id: self.book_id,
            title: self.title.clone(),
            author: self.author.clone(),
            isbn: self.isbn.clone(),
        }
    }
}

impl Clone for Checkout {
    fn clone(&self) -> (copy: Self)
        ensures
            copy == *self,
    {
        Checkout {
            id: self.id,
            checked_out_by: self.checked_out_by.clone(),
            checked_out_at: self.checked_out_at,
            returned_at: self.returned_at,
            book: self.book.clone(),
        }
    }
}

/// Asks to lend a book to a user.
#[derive(Clone, Copy, Debug, PartialEq, Eq, Structural)]
pub struct CreateCheckout {
    pub book_id: BookId,
    pub checked_out_by: UserId,
    pub checked_out_at: Timestamp,
}

impl CreateCheckout {
    pub fn new(book_id: BookId, checked_out_by: UserId, checked_out_at: Timestamp) -> (event: Self)
        ensures
            event == (CreateCheckout { book_id, checked_out_by, checked_out_at }),
    {
        CreateCheckout { book_id, checked_out_by, checked_out_at }
    }
}

/// Asks to take a book back from the user who borrowed it.
#[derive(Clone, Copy, Debug, PartialEq, Eq, Structural)]
pub struct UpdateReturned {
    pub checkout_id: CheckoutId,
    pub book_id: BookId,
    pub returned_by: UserId,
    pub returned_at: Timestamp,
}

impl UpdateReturned {
    pub fn new(
        checkout_id: CheckoutId,
        book_id: BookId,
        returned_by: UserId,
        returned_at: Timestamp,
    ) -> (event: Self)
        ensures
            event == (UpdateReturned { checkout_id, book_id, returned_by, returned_at }),
    {
        UpdateReturned { checkout_id, book_id, returned_by, returned_at }
    }
}

} // verus!
