//! The rows of the tables, and the rows that queries hand out.
use vstd::prelude::*;
use crate::kernel::model::checkout::{Checkout, CheckoutBook};
use crate::kernel::model::id::{BookId, CheckoutId, UserId};
use crate::kernel::model::time::Timestamp;
use crate::kernel::model::user::CheckoutUser;

verus! {

/// A row of the users table.
#[derive(Debug, PartialEq, Eq)]
pub struct UserRecord {
    pub user_id: UserId,
    pub name: String,
}

/// A row of the books table.
#[derive(Debug, PartialEq, Eq)]
pub struct BookRecord {
    pub book_id: BookId,
    pub title: String,
    pub author: String,
    pub isbn: String,
    pub description: String,
    pub user_id: UserId,
}

/// A row of the table of open loans.
#[derive(Clone, Copy, Debug, PartialEq, Eq, Structural)]
pub struct CheckoutRecord {
    pub checkout_id: CheckoutId,
    pub book_id: BookId,
    pub user_id: UserId,
    pub checked_out_at: Timestamp,
}

/// A row of the history of returned loans.
#[derive(Clone, Copy, Debug, PartialEq, Eq, Structural)]
pub struct ReturnedCheckoutRecord {
    pub checkout_id: CheckoutId,
    pub book_id: BookId,
    pub user_id: UserId,
    pub checked_out_at: Timestamp,
    pub returned_at: Timestamp,
}

impl Clone for UserRecord {
    fn clone(&self) -> (copy: Self)
        ensures
            copy == *self,
    {
        UserRecord { user_id: self.user_id, name: self.name.clone() }
    }
}

impl Clone for BookRecord {
    fn clone(&self) -> (copy: Self)
        ensures
            copy == *self,
    {
        BookRecord {
            book_id: self.book_id,
            title: self.title.clone(),
            author: self.author.clone(),
            isbn: self.isbn.clone(),
            description: self.description.clone(),
            user_id: self.user_id,
        }
    }
}

impl CheckoutRecord {
    /// The history row that closes this loan at `returned_at`.
    pub open spec fn returned(self, returned_at: Timestamp) -> ReturnedCheckoutRecord {
        ReturnedCheckoutRecord {
            checkout_id: self.checkout_id,
            book_id: self.book_id,
            user_id: self.user_id,
            checked_out_at: self.checked_out_at,
            returned_at,
        }
    }
}

/// What the store knows of a book's loan: the book exists, and
/// `checkout_id` and `user_id` name its open loan if it has one.
#[derive(Clone, Copy, Debug, PartialEq, Eq, Structural)]
pub struct CheckoutStateRow {
    pub book_id: BookId,
    pub checkout_id: Option<CheckoutId>,
    pub user_id: Option<UserId>,
}

/// A loan joined with its book and its borrower; `returned_at` is `None`
/// while the loan is open.
#[derive(Debug, PartialEq, Eq)]
pub struct CheckoutRow {
    pub checkout_id: CheckoutId,
    pub book_id: BookId,
    pub user_id: UserId,
    pub user_name: String,
    pub checked_out_at: Timestamp,
    pub returned_at: Option<Timestamp>,
    pub title: String,
    pub author: String,
    pub isbn: String,
}

impl Clone for CheckoutRow {
    fn clone(&self) -> (copy: Self)
        ensures
            copy == *self,
    {
        CheckoutRow {
            checkout_id: self.checkout_id,
            book_id: self.book_id,
            user_id: self.user_id,
            user_name: self.user_name.clone(),
            checked_out_at: self.checked_out_at,
            returned_at: self.returned_at,
            title: self.title.clone(),
            author: self.author.clone(),
            isbn: self.isbn.clone(),
        }
    }
}

impl From<CheckoutRow> for Checkout {
    /// The loan that the row describes.
    fn from(value: CheckoutRow) -> (checkout: Checkout) {
        let CheckoutRow {
            checkout_id,
            book_id,
            user_id,
            user_name,
            checked_out_at,
            returned_at,
            title,
            author,
            isbn,
        } = value;
        Checkout {
            id: checkout_id,
            checked_out_by: CheckoutUser { id: user_id, name: user_name },
            checked_out_at,
            returned_at,
            book: CheckoutBook { book_id, title, author, isbn },
        }
    }
}

impl vstd::std_specs::convert::FromSpecImpl<CheckoutRow> for Checkout {
    open spec fn obeys_from_spec() -> bool {
        true
    }

    open spec fn from_spec(value: CheckoutRow) -> Checkout {
        Checkout {
            id: value.checkout_id,
            checked_out_by: CheckoutUser { id: value.user_id, name: value.user_name },
            checked_out_at: value.checked_out_at,
            returned_at: value.returned_at,
            book: CheckoutBook {
                book_id: value.book_id,
                title: value.title,
                author: value.author,
                isbn: value.isbn,
            },
        }
    }
}

/// A book joined with its owner.
#[derive(Debug, PartialEq, Eq)]
pub struct BookRow {
    pub book_id: BookId,
    pub title: String,
    pub author: String,
    pub isbn: String,
    pub description: String,
    pub owned_by: UserId,
    pub owner_name: String,
}

/// An open loan joined with its borrower.
#[derive(Debug, PartialEq, Eq)]
pub struct BookCheckoutRow {
    pub checkout_id: CheckoutId,
    pub book_id: BookId,
    pub user_id: UserId,
    pub user_name: String,
    pub checked_out_at: Timestamp,
}

} // verus!
