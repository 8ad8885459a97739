//! Books, as requests name them and responses show them.
use vstd::prelude::*;
use crate::api::model::user::{BookOwner, CheckoutUser};
use crate::error::{AppError, InvalidField};
use crate::kernel::model::book::{Book, BookListOptions, Checkout, CreateBook, UpdateBook};
use crate::kernel::model::id::{BookId, CheckoutId, UserId};
use crate::kernel::model::list::PaginatedList;
use crate::kernel::model::time::Timestamp;

verus! {

/// The part of what a request says of a book that breaks a rule, if any:
/// title, author and ISBN must not be empty.
pub open spec fn book_fault(title: Seq<char>, author: Seq<char>, isbn: Seq<char>) -> Option<
    InvalidField,
> {
    if title.len() == 0 {
        Some(InvalidField::Title)
    } else if author.len() == 0 {
        Some(InvalidField::Author)
    } else if isbn.len() == 0 {
        Some(InvalidField::Isbn)
    } else {
        None
    }
}

/// Checks what a request says of a book.
fn validate_book(title: &String, author: &String, isbn: &String) -> (result: Result<(), AppError>)
    ensures
        result == match book_fault(title@, author@, isbn@) {
            Some(field) => Err::<(), AppError>(AppError::ValidationError(field)),
            None => Ok::<(), AppError>(()),
        },
{
    if title.as_str().is_empty() {
        Err(AppError::ValidationError(InvalidField::Title))
    } else if author.as_str().is_empty() {
        Err(AppError::ValidationError(InvalidField::Author))
    } else if isbn.as_str().is_empty() {
        Err(AppError::ValidationError(InvalidField::Isbn))
    } else {
        Ok(())
    }
}

/// Asks to register a book.
#[derive(Debug, PartialEq, Eq)]
pub struct CreateBookRequest {
    pub title: String,
    pub author: String,
    pub isbn: String,
    pub description: String,
}

impl CreateBookRequest {
    /// Checks the request: title, author and ISBN must not be empty. The
    /// error names the first part that breaks its rule.
    pub fn validate(&self) -> (result: Result<(), AppError>)
        ensures
            result == match book_fault(self.title@, self.author@, self.isbn@) {
                Some(field) => Err::<(), AppError>(AppError::ValidationError(field)),
                None => Ok::<(), AppError>(()),
            },
    {
        validate_book(&self.title, &self.author, &self.isbn)
    }
}

impl From<CreateBookRequest> for CreateBook {
    fn from(value: CreateBookRequest) -> (event: CreateBook) {
        let CreateBookRequest { title, author, isbn, description } = value;
        Self { title, author, isbn, description }
    }
}

impl vstd::std_specs::convert::FromSpecImpl<CreateBookRequest> for CreateBook {
    open spec fn obeys_from_spec() -> bool {
        true
    }

    open spec fn from_spec(value: CreateBookRequest) -> CreateBook {
        CreateBook {
            title: value.title,
            author: value.author,
            isbn: value.isbn,
            description: value.description,
        }
    }
}

/// Asks to replace what the catalogue says of a book.
#[derive(Debug, PartialEq, Eq)]
pub struct UpdateBookRequest {
    pub title: String,
    pub author: String,
    pub isbn: String,
    pub description: String,
}

impl UpdateBookRequest {
    /// Checks the request: title, author and ISBN must not be empty. The
    /// error names the first part that breaks its rule.
    pub fn validate(&self) -> (result: Result<(), AppError>)
        ensures
            result == match book_fault(self.title@, self.author@, self.isbn@) {
                Some(field) => Err::<(), AppError>(AppError::ValidationError(field)),
                None => Ok::<(), AppError>(()),
            },
    {
        validate_book(&self.title, &self.author, &self.isbn)
    }
}

/// An update request together with the book that it is about, the user
/// who sent it, and whether that user is an administrator.
#[derive(Debug, PartialEq, Eq)]
pub struct UpdateBookRequestWithIds(pub BookId, pub UserId, pub bool, pub UpdateBookRequest);

impl UpdateBookRequestWithIds {
    pub fn new(
        book_id: BookId,
        user_id: UserId,
        is_admin: bool,
        request: UpdateBookRequest,
    ) -> (with_ids: Self)
        ensures
            with_ids == UpdateBookRequestWithIds(book_id, user_id, is_admin, request),
    {
        UpdateBookRequestWithIds(book_id, user_id, is_admin, request)
    }
}

impl From<UpdateBookRequestWithIds> for UpdateBook {
    fn from(value: UpdateBookRequestWithIds) -> (event: UpdateBook) {
        let UpdateBookRequestWithIds(
            book_id,
            user_id,
            is_admin,
            UpdateBookRequest { title, author, isbn, description },
        ) = value;
        Self { book_id, title, author, isbn, description, requested_user: user_id, is_admin }
    }
}

impl vstd::std_specs::convert::FromSpecImpl<UpdateBookRequestWithIds> for UpdateBook {
    open spec fn obeys_from_spec() -> bool {
        true
    }

    open spec fn from_spec(value: UpdateBookRequestWithIds) -> UpdateBook {
        UpdateBook {
            book_id: value.0,
            title: value.3.title,
            author: value.3.author,
            isbn: value.3.isbn,
            description: value.3.description,
            requested_user: value.1,
            is_admin: value.2,
        }
    }
}

/// The window of a book listing, as the request gives it.
#[derive(Clone, Copy, Debug, PartialEq, Eq, Structural)]
pub struct BookListQuery {
    pub limit: i64,
    pub offset: i64,
}

/// The limit of a listing that names none.
pub const DEFAULT_LIMIT: i64 = 20;

/// The limit of a listing that names none.
pub fn default_limit() -> (limit: i64)
    ensures
        limit == DEFAULT_LIMIT,
{
    DEFAULT_LIMIT
}

impl BookListQuery {
    /// The window that a request asks for: a limit that it does not name is
    /// `DEFAULT_LIMIT`, an offset that it does not name is 0.
    pub fn with_defaults(limit: Option<i64>, offset: Option<i64>) -> (query: Self)
        ensures
            query.limit == match limit {
                Some(limit) => limit,
                None => DEFAULT_LIMIT,
            },
            query.offset == match offset {
                Some(offset) => offset,
                None => 0,
            },
    {
        BookListQuery {
            limit: match limit {
                Some(limit) => limit,
                None => default_limit(),
            },
            offset: match offset {
                Some(offset) => offset,
                None => 0,
            },
        }
    }

    /// The part of the window that breaks a rule, if any: neither the limit
    /// nor the offset may be negative.
    pub open spec fn fault(self) -> Option<InvalidField> {
        if self.limit < 0 {
            Some(InvalidField::Limit)
        } else if self.offset < 0 {
            Some(InvalidField::Offset)
        } else {
            None
        }
    }

    /// Checks the window. The error names the first part that breaks its
    /// rule.
    pub fn validate(&self) -> (result: Result<(), AppError>)
        ensures
            result == match self.fault() {
                Some(field) => Err::<(), AppError>(AppError::ValidationError(field)),
                None => Ok::<(), AppError>(()),
            },
    {
        if self.limit < 0 {
            Err(AppError::ValidationError(InvalidField::Limit))
        } else if self.offset < 0 {
            Err(AppError::ValidationError(InvalidField::Offset))
        } else {
            Ok(())
        }
    }
}

impl From<BookListQuery> for BookListOptions {
    fn from(value: BookListQuery) -> (options: BookListOptions) {
        let BookListQuery { limit, offset } = value;
        Self { limit, offset }
    }
}

impl vstd::std_specs::convert::FromSpecImpl<BookListQuery> for BookListOptions {
    open spec fn obeys_from_spec() -> bool {
        true
    }

    open spec fn from_spec(value: BookListQuery) -> BookListOptions {
        BookListOptions { limit: value.limit, offset: value.offset }
    }
}

/// The open loan of a book.
#[derive(Debug, PartialEq, Eq)]
pub struct BookCheckoutResponse {
    pub id: CheckoutId,
    pub checked_out_by: CheckoutUser,
    pub checked_out_at: Timestamp,
}

/// An open loan as a response shows it.
pub open spec fn book_checkout_response_of(checkout: Checkout) -> BookCheckoutResponse {
    BookCheckoutResponse {
        id: checkout.checkout_id,
        checked_out_by: CheckoutUser {
            id: checkout.checked_out_by.id,
            name: checkout.checked_out_by.name,
        },
        checked_out_at: checkout.checked_out_at,
    }
}

impl From<Checkout> for BookCheckoutResponse {
    fn from(value: Checkout) -> (response: BookCheckoutResponse) {
        let Checkout { checkout_id, checked_out_by, checked_out_at } = value;
        Self {
            id: checkout_id,
            checked_out_by: CheckoutUser { id: checked_out_by.id, name: checked_out_by.name },
            checked_out_at,
        }
    }
}

impl vstd::std_specs::convert::FromSpecImpl<Checkout> for BookCheckoutResponse {
    open spec fn obeys_from_spec() -> bool {
        true
    }

    open spec fn from_spec(value: Checkout) -> BookCheckoutResponse {
        book_checkout_response_of(value)
    }
}

/// A book, with its owner and its open loan.
#[derive(Debug, PartialEq, Eq)]
pub struct BookResponse {
    pub id: BookId,
    pub title: String,
    pub author: String,
    pub isbn: String,
    pub description: String,
    pub owner: BookOwner,
    pub checkout: Option<BookCheckoutResponse>,
}

/// A book as a response shows it.
pub open spec fn book_response_of(book: Book) -> BookResponse {
    BookResponse {
        id: book.id,
        title: book.title,
        author: book.author,
        isbn: book.isbn,
        description: book.description,
        owner: BookOwner { id: book.owner.id, name: book.owner.name },
        checkout: match book.checkout {
            Some(checkout) => Some(book_checkout_response_of(checkout)),
            None => None,
        },
    }
}

/// The books of a listing as a response shows them, in order.
pub open spec fn book_responses_of(books: Seq<Book>) -> Seq<BookResponse> {
    Seq::new(books.len(), |i: int| book_response_of(books[i]))
}

/// Shows a book.
fn into_response(book: Book) -> (response: BookResponse)
    ensures
        response == book_response_of(book),
{
    let Book { id, title, author, isbn, description, owner, checkout } = book;
    BookResponse {
        id,
        title,
        author,
        isbn,
        description,
        owner: BookOwner { id: owner.id, name: owner.name },
        checkout: match checkout {
            Some(checkout) => Some(
                BookCheckoutResponse {
                    id: checkout.checkout_id,
                    checked_out_by: CheckoutUser {
                        id: checkout.checked_out_by.id,
                        name: checkout.checked_out_by.name,
                    },
                    checked_out_at: checkout.checked_out_at,
                },
            ),
            None => None,
        },
    }
}

impl From<Book> for BookResponse {
    fn from(value: Book) -> (response: BookResponse) {
        into_response(value)
    }
}

impl vstd::std_specs::convert::FromSpecImpl<Book> for BookResponse {
    open spec fn obeys_from_spec() -> bool {
        true
    }

    open spec fn from_spec(value: Book) -> BookResponse {
        book_response_of(value)
    }
}

/// One page of a book listing.
#[derive(Debug, PartialEq, Eq)]
pub struct PaginatedBookResponse {
    pub total: i64,
    pub limit: i64,
    pub offset: i64,
    pub items: Vec<BookResponse>,
}

impl From<PaginatedList<Book>> for PaginatedBookResponse {
    /// Shows every book of the page, in order, beside the page's window.
    fn from(value: PaginatedList<Book>) -> (response: PaginatedBookResponse)
        ensures
            response.total == value.total,
            response.limit == value.limit,
            response.offset == value.offset,
            response.items@ == book_responses_of(value.items@),
    {
        let PaginatedList { items, total, limit, offset } = value;
        let ghost books = items@;
        let mut items = items;
        let mut shown: Vec<BookResponse> = Vec::new();
        while items.len() > 0
            invariant
                shown@.len() + items@.len() == books.len(),
                items@ == books.subrange(shown@.len() as int, books.len() as int),
                forall|j: int| 0 <= j < shown@.len() ==> shown@[j] == book_response_of(books[j]),
            decreases items.len(),
        {
            let book = items.remove(0);
            shown.push(into_response(book));
        }
        assert(shown@ =~= book_responses_of(books));
        Self { total, limit, offset, items: shown }
    }
}

impl vstd::std_specs::convert::FromSpecImpl<PaginatedList<Book>> for PaginatedBookResponse {
    /// A page holds a vector, which only executable code can build: what
    /// `from` returns is stated in its own contract.
    open spec fn obeys_from_spec() -> bool {
        false
    }

    open spec fn from_spec(value: PaginatedList<Book>) -> PaginatedBookResponse {
        arbitrary()
    }
}

} // verus!
