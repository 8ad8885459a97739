//! Loans, as responses show them.
use vstd::prelude::*;
use crate::api::model::user::CheckoutUser;
use crate::kernel::model::checkout::{Checkout, CheckoutBook};
use crate::kernel::model::id::{BookId, CheckoutId};
use crate::kernel::model::time::Timestamp;

verus! {

/// A listing of loans.
#[derive(Debug, PartialEq, Eq)]
pub struct CheckoutsResponse {
    pub items: Vec<CheckoutResponse>,
}

/// A loan as a response shows it.
pub open spec fn checkout_response_of(checkout: Checkout) -> CheckoutResponse {
    CheckoutResponse {
        id: checkout.id,
        checked_out_by: CheckoutUser {
            id: checkout.checked_out_by.id,
            name: checkout.checked_out_by.name,
        },
        checked_out_at: checkout.checked_out_at,
        returned_at: checkout.returned_at,
        book: CheckoutBookResponse {
            id: checkout.book.book_id,
            title: checkout.book.title,
            author: checkout.book.author,
            isbn: checkout.book.isbn,
        },
    }
}

/// The loans of a listing as a response shows them, in order.
pub open spec fn checkout_responses_of(checkouts: Seq<Checkout>) -> Seq<CheckoutResponse> {
    Seq::new(checkouts.len(), |i: int| checkout_response_of(checkouts[i]))
}

impl From<Vec<Checkout>> for CheckoutsResponse {
    /// Shows every loan of the listing, in order.
    fn from(value: Vec<Checkout>) -> (response: CheckoutsResponse)
        ensures
            response.items@ == checkout_responses_of(value@),
    {
        let mut items: Vec<CheckoutResponse> = Vec::new();
        let mut i: usize = 0;
        while i < value.len()
            invariant
                i <= value.len(),
                items@.len() == i,
                forall|j: int| 0 <= j < i ==> items@[j] == checkout_response_of(value@[j]),
            decreases value.len() - i,
        {
            items.push(CheckoutResponse::of(&value[i]));
            i += 1;
        }
        assert(items@ =~= checkout_responses_of(value@));
        Self { items }
    }
}

impl vstd::std_specs::convert::FromSpecImpl<Vec<Checkout>> for CheckoutsResponse {
    /// A listing holds a vector, which only executable code can build:
    /// what `from` returns is stated in its own contract.
    open spec fn obeys_from_spec() -> bool {
        false
    }

    open spec fn from_spec(value: Vec<Checkout>) -> CheckoutsResponse {
        arbitrary()
    }
}

/// One loan of a book: still open while `returned_at` is `None`.
#[derive(Debug, PartialEq, Eq)]
pub struct CheckoutResponse {
    pub id: CheckoutId,
    pub checked_out_by: CheckoutUser,
    pub checked_out_at: Timestamp,
    pub returned_at: Option<Timestamp>,
    pub book: CheckoutBookResponse,
}

impl CheckoutResponse {
    /// Shows a loan that stays with the caller.
    pub fn of(checkout: &Checkout) -> (response: CheckoutResponse)
        ensures
            response == checkout_response_of(*checkout),
    {
        CheckoutResponse {
            id: checkout.id,
            checked_out_by: CheckoutUser {
                id: checkout.checked_out_by.id,
                name: checkout.checked_out_by.name.clone(),
            },
            checked_out_at: checkout.checked_out_at,
            returned_at: checkout.returned_at,
            book: CheckoutBookResponse {
                id: checkout.book.book_id,
                title: checkout.book.title.clone(),
                author: checkout.book.author.clone(),
                isbn: checkout.book.isbn.clone(),
            },
        }
    }
}

impl From<Checkout> for CheckoutResponse {
    fn from(value: Checkout) -> (response: CheckoutResponse) {
        let Checkout { id, checked_out_by, checked_out_at, returned_at, book } = value;
        Self {
            id,
            checked_out_by: CheckoutUser { id: checked_out_by.id, name: checked_out_by.name },
            checked_out_at,
            returned_at,
            book: CheckoutBookResponse {
                id: book.book_id,
                title: book.title,
                author: book.author,
                isbn: book.isbn,
            },
        }
    }
}

impl vstd::std_specs::convert::FromSpecImpl<Checkout> for CheckoutResponse {
    open spec fn obeys_from_spec() -> bool {
        true
    }

    open spec fn from_spec(value: Checkout) -> CheckoutResponse {
        checkout_response_of(value)
    }
}

/// The book of a loan.
#[derive(Debug, PartialEq, Eq)]
pub struct CheckoutBookResponse {
    pub id: BookId,
    pub title: String,
    pub author: String,
    pub isbn: String,
}

impl From<CheckoutBook> for CheckoutBookResponse {
    fn from(value: CheckoutBook) -> (response: CheckoutBookResponse) {
        let CheckoutBook { book_id, title, author, isbn } = value;
        Self { id: book_id, title, author, isbn }
    }
}

impl vstd::std_specs::convert::FromSpecImpl<CheckoutBook> for CheckoutBookResponse {
    open spec fn obeys_from_spec() -> bool {
        true
    }

    open spec fn from_spec(value: CheckoutBook) -> CheckoutBookResponse {
        CheckoutBookResponse {
            id: value.book_id,
            title: value.title,
            author: value.author,
            isbn: value.isbn,
        }
    }
}

} // verus!
