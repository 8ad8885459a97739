//! The books of the catalogue: registering, listing, changing and removing
//! them.
use vstd::prelude::*;
use crate::adapter::database::keys::position;
use crate::adapter::database::model::{BookCheckoutRow, BookRecord, BookRow};
use crate::adapter::database::store::{Database, DatabaseView};
use crate::adapter::repository::checkout::commit_outcome;
use crate::error::{AppError, FailedWrite, InvalidField};
use crate::kernel::model::book::{
    Book, BookListOptions, Checkout, CreateBook, DeleteBook, UpdateBook,
};
use crate::kernel::model::id::{is_random_uuid, BookId, UserId};
use crate::kernel::model::list::PaginatedList;
use crate::kernel::model::user::{BookOwner, CheckoutUser};

verus! {

/// The row that registers `event` as a book of `requested_user` under the
/// id `book_id`.
pub open spec fn new_book(
    event: CreateBook,
    requested_user: UserId,
    book_id: BookId,
) -> BookRecord {
    BookRecord {
        book_id,
        title: event.title,
        author: event.author,
        isbn: event.isbn,
        description: event.description,
        user_id: requested_user,
    }
}

/// What registering a book under the id `book_id` does to the store.
pub open spec fn create_book_outcome(
    db: DatabaseView,
    event: CreateBook,
    requested_user: UserId,
    book_id: BookId,
) -> Result<DatabaseView, AppError> {
    commit_outcome(
        db,
        if db.has_book(book_id) {
            Err(AppError::UnprocessableState(FailedWrite::BookNotCreated))
        } else {
            Ok(db.with_book(new_book(event, requested_user, book_id)))
        },
    )
}

/// What changing a book does to the store: it fails with `EntityNotFound`
/// if there is no such book or the user may not change it.
pub open spec fn update_book_outcome(db: DatabaseView, event: UpdateBook) -> Result<
    DatabaseView,
    AppError,
> {
    commit_outcome(
        db,
        match position(db.book_ids(), event.book_id.0) {
            Some(i) if db.may_change(i, event.requested_user, event.is_admin) => Ok(
                db.with_book_at(i, DatabaseView::updated_book(db.books[i], event)),
            ),
            _ => Err(AppError::EntityNotFound(event.book_id)),
        },
    )
}

/// What removing a book does to the store: it fails with `EntityNotFound`
/// if there is no such book or the user may not remove it.
pub open spec fn delete_book_outcome(db: DatabaseView, event: DeleteBook) -> Result<
    DatabaseView,
    AppError,
> {
    commit_outcome(
        db,
        match position(db.book_ids(), event.book_id.0) {
            Some(i) if db.may_change(i, event.requested_user, event.is_admin) => Ok(
                db.without_book(i),
            ),
            _ => Err(AppError::EntityNotFound(event.book_id)),
        },
    )
}

/// The open loan that the row describes, as a book shows it.
pub open spec fn checkout_of(row: BookCheckoutRow) -> Checkout {
    Checkout {
        checkout_id: row.checkout_id,
        checked_out_by: CheckoutUser { id: row.user_id, name: row.user_name },
        checked_out_at: row.checked_out_at,
    }
}

/// The book that the row describes, with its open loan.
pub open spec fn book_of(row: BookRow, checkout: Option<BookCheckoutRow>) -> Book {
    Book {
        id: row.book_id,
        title: row.title,
        author: row.author,
        isbn: row.isbn,
        description: row.description,
        owner: BookOwner { id: row.owned_by, name: row.owner_name },
        checkout: match checkout {
            Some(loan) => Some(checkout_of(loan)),
            None => None,
        },
    }
}

/// The books that the rows describe, each with its open loan, in the order
/// of the rows.
pub open spec fn books_of(db: DatabaseView, rows: Seq<BookRow>) -> Seq<Book> {
    Seq::new(rows.len(), |i: int| book_of(rows[i], db.book_checkout(rows[i].book_id)))
}

/// Whether a window can select a page: neither its limit nor its offset may
/// be negative.
pub open spec fn window_fault(options: BookListOptions) -> Option<InvalidField> {
    if options.limit < 0 {
        Some(InvalidField::Limit)
    } else if options.offset < 0 {
        Some(InvalidField::Offset)
    } else {
        None
    }
}

/// Turns a row and the open loan of its book into a book.
pub fn into_book(row: BookRow, checkout: Option<BookCheckoutRow>) -> (book: Book)
    ensures
        book == book_of(row, checkout),
{
    let BookRow { book_id, title, author, isbn, description, owned_by, owner_name } = row;
    Book {
        id: book_id,
        title,
        author,
        isbn,
        description,
        owner: BookOwner { id: owned_by, name: owner_name },
        checkout: match checkout {
            Some(loan) => Some(
                Checkout {
                    checkout_id: loan.checkout_id,
                    checked_out_by: CheckoutUser { id: loan.user_id, name: loan.user_name },
                    checked_out_at: loan.checked_out_at,
                },
            ),
            None => None,
        },
    }
}

/// The repository of books, on a store of its own.
pub struct BookRepositoryImpl {
    db: Database,
}

impl View for BookRepositoryImpl {
    type V = DatabaseView;

    closed spec fn view(&self) -> DatabaseView {
        self.db@
    }
}

impl BookRepositoryImpl {
    /// A repository on the given store.
    pub fn new(db: Database) -> (repository: Self)
        ensures
            repository@ == db@,
    {
        BookRepositoryImpl { db }
    }

    /// Gives the store back.
    pub fn into_inner(self) -> (db: Database)
        ensures
            db@ == self@,
    {
        self.db
    }

    /// Registers a book of `requested_user` under a fresh random id: the
    /// outcome is that of [`Self::create_with_id`] for the id that was
    /// drawn.
    pub fn create(&mut self, event: CreateBook, requested_user: UserId) -> (result: Result<
        (),
        AppError,
    >)
        requires
            old(self)@.well_formed(),
        ensures
            final(self)@.well_formed(),
            exists|book_id: BookId|
                {
                    &&& is_random_uuid(book_id.0)
                    &&& match result {
                        Ok(()) => #[trigger] create_book_outcome(
                            old(self)@,
                            event,
                            requested_user,
                            book_id,
                        ) == Ok::<DatabaseView, AppError>(final(self)@),
                        Err(e) => {
                            &&& create_book_outcome(old(self)@, event, requested_user, book_id)
                                == Err::<DatabaseView, AppError>(e)
                            &&& final(self)@ == old(self)@
                        },
                    }
                },
    {
        let book_id = BookId::new();
        self.create_with_id(event, requested_user, book_id)
    }

    /// Registers a book of `requested_user` under the id `book_id`, or
    /// fails and leaves the store as it is.
    pub fn create_with_id(
        &mut self,
        event: CreateBook,
        requested_user: UserId,
        book_id: BookId,
    ) -> (result: Result<(), AppError>)
        requires
            old(self)@.well_formed(),
        ensures
            final(self)@.well_formed(),
            match result {
                Ok(()) => create_book_outcome(old(self)@, event, requested_user, book_id) == Ok::<
                    DatabaseView,
                    AppError,
                >(final(self)@),
                Err(e) => {
                    &&& create_book_outcome(old(self)@, event, requested_user, book_id) == Err::<
                        DatabaseView,
                        AppError,
                    >(e)
                    &&& final(self)@ == old(self)@
                },
            },
    {
        let mut tx = self.db.begin();
        tx.set_serializable();
        let rows = tx.insert_book(
            BookRecord {
                book_id,
                title: event.title,
                author: event.author,
                isbn: event.isbn,
                description: event.description,
                user_id: requested_user,
            },
        );
        if rows < 1 {
            tx.rollback();
            return Err(AppError::UnprocessableState(FailedWrite::BookNotCreated));
        }
        self.db.commit(tx)
    }

    /// Lists one page of the catalogue, the newest book first, each book
    /// with its owner and its open loan. Fails if the limit or the offset is
    /// negative.
    pub fn find_all(&self, options: BookListOptions) -> (result: Result<
        PaginatedList<Book>,
        AppError,
    >)
        ensures
            match result {
                Ok(list) => {
                    &&& window_fault(options) is None
                    &&& list.limit == options.limit
                    &&& list.offset == options.offset
                    &&& list.total == self@.page_total(options.limit as int, options.offset as int)
                    &&& list.items@ == books_of(
                        self@,
                        self@.page(options.limit as int, options.offset as int),
                    )
                },
                Err(e) => window_fault(options) == Some(e->ValidationError_0) && e
                    is ValidationError,
            },
    {
        let BookListOptions { limit, offset } = options;
        let (total, mut rows) = match self.db.select_book_page(limit, offset) {
            Some(page) => page,
            None => {
                let field = if limit < 0 {
                    InvalidField::Limit
                } else {
                    InvalidField::Offset
                };
                return Err(AppError::ValidationError(field));
            },
        };
        let ghost page = rows@;
        let mut items: Vec<Book> = Vec::new();
        while rows.len() > 0
            invariant
                items@.len() + rows@.len() == page.len(),
                rows@ == page.subrange(items@.len() as int, page.len() as int),
                forall|j: int|
                    0 <= j < items@.len() ==> items@[j] == book_of(
                        page[j],
                        self@.book_checkout(page[j].book_id),
                    ),
            decreases rows.len(),
        {
            let row = rows.remove(0);
            let checkout = self.db.select_book_checkout(row.book_id);
            items.push(into_book(row, checkout));
        }
        assert(items@ =~= books_of(self@, page));
        Ok(PaginatedList { total, limit, offset, items })
    }

    /// Reads a book with its owner and its open loan: `None` if there is no
    /// such book.
    pub fn find_by_id(&self, book_id: BookId) -> (result: Result<Option<Book>, AppError>)
        ensures
            result is Ok,
            result->Ok_0 == match self@.book(book_id) {
                Some(row) => Some(book_of(row, self@.book_checkout(row.book_id))),
                None => None,
            },
    {
        match self.db.select_book(book_id) {
            Some(r) => {
                let checkout = self.db.select_book_checkout(r.book_id);
                Ok(Some(into_book(r, checkout)))
            },
            None => Ok(None),
        }
    }

    /// Replaces title, author, ISBN and description of a book, or fails and
    /// leaves the store as it is.
    pub fn update(&mut self, event: UpdateBook) -> (result: Result<(), AppError>)
        requires
            old(self)@.well_formed(),
        ensures
            final(self)@.well_formed(),
            match result {
                Ok(()) => update_book_outcome(old(self)@, event) == Ok::<DatabaseView, AppError>(
                    final(self)@,
                ),
                Err(e) => {
                    &&& update_book_outcome(old(self)@, event) == Err::<DatabaseView, AppError>(e)
                    &&& final(self)@ == old(self)@
                },
            },
    {
        let book_id = event.book_id;
        let mut tx = self.db.begin();
        tx.set_serializable();
        let rows = tx.update_book(event);
        if rows < 1 {
            tx.rollback();
            return Err(AppError::EntityNotFound(book_id));
        }
        self.db.commit(tx)
    }

    /// Removes a book, or fails and leaves the store as it is.
    pub fn delete(&mut self, event: DeleteBook) -> (result: Result<(), AppError>)
        requires
            old(self)@.well_formed(),
        ensures
            final(self)@.well_formed(),
            match result {
                Ok(()) => delete_book_outcome(old(self)@, event) == Ok::<DatabaseView, AppError>(
                    final(self)@,
                ),
                Err(e) => {
                    &&& delete_book_outcome(old(self)@, event) == Err::<DatabaseView, AppError>(e)
                    &&& final(self)@ == old(self)@
                },
            },
    {
        let mut tx = self.db.begin();
        tx.set_serializable();
        let rows = tx.delete_book(event);
        if rows < 1 {
            tx.rollback();
            return Err(AppError::EntityNotFound(event.book_id));
        }
        self.db.commit(tx)
    }

    /// Reads the open loan of each of the books, in the order of the ids:
    /// `None` for a book that is not lent out.
    pub fn find_checkouts(&self, book_ids: &Vec<BookId>) -> (result: Result<
        Vec<Option<Checkout>>,
        AppError,
    >)
        ensures
            result is Ok,
            result->Ok_0@.len() == book_ids@.len(),
            forall|i: int|
                0 <= i < book_ids@.len() ==> (#[trigger] result->Ok_0@[i])
                    == match self@.book_checkout(book_ids@[i]) {
                    Some(row) => Some(checkout_of(row)),
                    None => None,
                },
    {
        let mut checkouts: Vec<Option<Checkout>> = Vec::new();
        let mut i: usize = 0;
        while i < book_ids.len()
            invariant
                i <= book_ids.len(),
                checkouts@.len() == i,
                forall|j: int|
                    0 <= j < i ==> (#[trigger] checkouts@[j]) == match self@.book_checkout(
                        book_ids@[j],
                    ) {
                        Some(row) => Some(checkout_of(row)),
                        None => None,
                    },
            decreases book_ids.len() - i,
        {
            let checkout = match self.db.select_book_checkout(book_ids[i]) {
                Some(loan) => Some(
                    Checkout {
                        checkout_id: loan.checkout_id,
                        checked_out_by: CheckoutUser { id: loan.user_id, name: loan.user_name },
                        checked_out_at: loan.checked_out_at,
                    },
                ),
                None => None,
            };
            checkouts.push(checkout);
            i += 1;
        }
        Ok(checkouts)
    }
}

} // verus!
