//! Books, and the events of the catalogue.
use vstd::prelude::*;
use crate::kernel::model::id::{BookId, CheckoutId, UserId};
use crate::kernel::model::time::Timestamp;
use crate::kernel::model::user::{BookOwner, CheckoutUser};

verus! {

/// A book of the catalogue, with its open loan if it is lent out.
#[derive(Debug, PartialEq, Eq)]
pub struct Book {
    pub id: BookId,
    pub title: String,
    pub author: String,
    pub isbn: String,
    pub description: String,
    pub owner: BookOwner,
    pub checkout: Option<Checkout>,
}

/// The window of a book listing: at most `limit` books, after skipping
/// `offset`.
#[derive(Clone, Copy, Debug, PartialEq, Eq, Structural)]
pub struct BookListOptions {
    pub limit: i64,
    pub offset: i64,
}

/// Registers a book.
#[derive(Debug, PartialEq, Eq)]
pub struct CreateBook {
    pub title: String,
    pub author: String,
    pub isbn: String,
    pub description: String,
}

/// Replaces what the catalogue says of a book.
#[derive(Debug, PartialEq, Eq)]
pub struct UpdateBook {
    pub book_id: BookId,
    pub title: String,
    pub author: String,
    pub isbn: String,
    pub description: String,
    pub requested_user: UserId,
    pub is_admin: bool,
}

/// Removes a book from the catalogue.
#[derive(Clone, Copy, Debug, PartialEq, Eq, Structural)]
pub struct DeleteBook {
    pub book_id: BookId,
    pub requested_user: UserId,
    pub is_admin: bool,
}

/// The open loan of a book, as the book itself shows it.
#[derive(Debug, PartialEq, Eq)]
pub struct Checkout {
    pub checkout_id: CheckoutId,
    pub checked_out_by: CheckoutUser,
    pub checked_out_at: Timestamp,
}

} // verus!
