//! Requests about books.
use vstd::prelude::*;
use vstd::std_specs::convert::FromSpec;
use crate::adapter::repository::book::{
    book_of, books_of, create_book_outcome, delete_book_outcome, update_book_outcome,
    BookRepositoryImpl,
};
use crate::api::handler::{answers, StatusCode};
use crate::api::model::book::{
    book_fault, book_response_of, book_responses_of, BookListQuery, BookResponse,
    CreateBookRequest, PaginatedBookResponse, UpdateBookRequest, UpdateBookRequestWithIds,
};
use crate::error::AppError;
use crate::kernel::model::book::{BookListOptions, CreateBook, DeleteBook, UpdateBook};
use crate::kernel::model::id::{is_random_uuid, BookId, UserId};

verus! {

/// Registers a book of the user who asks, under a fresh random id, and
/// answers `Created`.
pub fn register_book(
    repository: &mut BookRepositoryImpl,
    user_id: UserId,
    req: CreateBookRequest,
) -> (result: Result<StatusCode, AppError>)
    requires
        old(repository)@.well_formed(),
    ensures
        final(repository)@.well_formed(),
        exists|book_id: BookId|
            {
                &&& is_random_uuid(book_id.0)
                &&& answers(
                    old(repository)@,
                    final(repository)@,
                    result,
                    #[trigger] create_book_outcome(
                        old(repository)@,
                        CreateBook::from_spec(req),
                        user_id,
                        book_id,
                    ),
                    StatusCode::Created,
                )
            },
{
    match repository.create(CreateBook::from(req), user_id) {
        Ok(()) => Ok(StatusCode::Created),
        Err(e) => Err(e),
    }
}

/// Lists one page of the catalogue, the newest book first. Fails with
/// `ValidationError` exactly if the limit or the offset is negative.
pub fn show_book_list(repository: &BookRepositoryImpl, query: BookListQuery) -> (result: Result<
    PaginatedBookResponse,
    AppError,
>)
    ensures
        match result {
            Ok(response) => {
                &&& query.fault() is None
                &&& response.limit == query.limit
                &&& response.offset == query.offset
                &&& response.total == repository@.page_total(
                    query.limit as int,
                    query.offset as int,
                )
                &&& response.items@ == book_responses_of(
                    books_of(
                        repository@,
                        repository@.page(query.limit as int, query.offset as int),
                    ),
                )
            },
            Err(e) => query.fault() == Some(e->ValidationError_0) && e is ValidationError,
        },
{
    match query.validate() {
        Err(e) => {
            return Err(e);
        },
        Ok(()) => {},
    }
    match repository.find_all(BookListOptions::from(query)) {
        Ok(list) => Ok(PaginatedBookResponse::from(list)),
        Err(e) => Err(e),
    }
}

/// Shows a book with its owner and its open loan. Fails with
/// `EntityNotFound` exactly if there is no such book, or its owner is not
/// on record.
pub fn show_book(repository: &BookRepositoryImpl, book_id: BookId) -> (result: Result<
    BookResponse,
    AppError,
>)
    ensures
        result == match repository@.book(book_id) {
            Some(row) => Ok::<BookResponse, AppError>(
                book_response_of(book_of(row, repository@.book_checkout(row.book_id))),
            ),
            None => Err::<BookResponse, AppError>(AppError::EntityNotFound(book_id)),
        },
{
    match repository.find_by_id(book_id) {
        Ok(Some(bc)) => Ok(BookResponse::from(bc)),
        Ok(None) => Err(AppError::EntityNotFound(book_id)),
        Err(e) => Err(e),
    }
}

/// Replaces what the catalogue says of a book, and answers `NoContent`.
///
/// Fails with `ValidationError` if title, author or ISBN is empty, else
/// with `EntityNotFound` if there is no such book or the user who asks may
/// not change it; on a failure the catalogue is as before.
pub fn update_book(
    repository: &mut BookRepositoryImpl,
    user_id: UserId,
    is_admin: bool,
    book_id: BookId,
    req: UpdateBookRequest,
) -> (result: Result<StatusCode, AppError>)
    requires
        old(repository)@.well_formed(),
    ensures
        final(repository)@.well_formed(),
        ({
            let event = UpdateBook::from_spec(
                UpdateBookRequestWithIds(book_id, user_id, is_admin, req),
            );
            match book_fault(req.title@, req.author@, req.isbn@) {
                Some(field) => {
                    &&& result == Err::<StatusCode, AppError>(AppError::ValidationError(field))
                    &&& final(repository)@ == old(repository)@
                },
                None => answers(
                    old(repository)@,
                    final(repository)@,
                    result,
                    update_book_outcome(old(repository)@, event),
                    StatusCode::NoContent,
                ),
            }
        }),
{
    match req.validate() {
        Err(e) => {
            return Err(e);
        },
        Ok(()) => {},
    }
    let update_book = UpdateBookRequestWithIds::new(book_id, user_id, is_admin, req);
    match repository.update(UpdateBook::from(update_book)) {
        Ok(()) => Ok(StatusCode::NoContent),
        Err(e) => Err(e),
    }
}

/// Removes a book from the catalogue, and answers `NoContent`; or fails and
/// leaves the catalogue as it is.
pub fn delete_book(
    repository: &mut BookRepositoryImpl,
    user_id: UserId,
    is_admin: bool,
    book_id: BookId,
) -> (result: Result<StatusCode, AppError>)
    requires
        old(repository)@.well_formed(),
    ensures
        final(repository)@.well_formed(),
        answers(
            old(repository)@,
            final(repository)@,
            result,
            delete_book_outcome(
                old(repository)@,
                DeleteBook { book_id, requested_user: user_id, is_admin },
            ),
            StatusCode::NoContent,
        ),
{
    let delete_book = DeleteBook { book_id, requested_user: user_id, is_admin };
    match repository.delete(delete_book) {
        Ok(()) => Ok(StatusCode::NoContent),
        Err(e) => Err(e),
    }
}

} // verus!
