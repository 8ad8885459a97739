//! What can go wrong, as a closed set of outcomes that a caller can switch on.
use vstd::prelude::*;
use crate::kernel::model::id::{BookId, CheckoutId, UserId};

verus! {

/// Why a request contradicts the loans on record.
#[derive(Clone, Copy, Debug, PartialEq, Eq, Structural)]
pub enum Conflict {
    /// The book is lent out already.
    AlreadyCheckedOut { book_id: BookId },
    /// The book is not lent out under this loan id to this user: it is lent
    /// under another id, or to another user, or not lent at all.
    ReturnDoesNotMatch { checkout_id: CheckoutId, returned_by: UserId, book_id: BookId },
}

/// A write that should have changed a row and changed none.
#[derive(Clone, Copy, Debug, PartialEq, Eq, Structural)]
pub enum FailedWrite {
    /// No loan was added to the open loans.
    CheckoutNotCreated,
    /// No loan was added to the history of returned loans.
    ReturnNotRecorded,
    /// No loan was taken out of the open loans.
    CheckoutNotDeleted,
    /// No book was added to the catalogue.
    BookNotCreated,
}

/// The part of a request that breaks a rule.
#[derive(Clone, Copy, Debug, PartialEq, Eq, Structural)]
pub enum InvalidField {
    /// A title must not be empty.
    Title,
    /// An author must not be empty.
    Author,
    /// An ISBN must not be empty.
    Isbn,
    /// A limit must not be negative.
    Limit,
    /// An offset must not be negative.
    Offset,
    /// A name must not be empty.
    Name,
    /// An email address must be well formed.
    Email,
    /// A password must not be empty.
    Password,
    /// The current password must not be empty.
    CurrentPassword,
    /// The new password must not be empty.
    NewPassword,
}

/// Why the store refused to make a transaction's changes permanent.
#[derive(Clone, Copy, Debug, PartialEq, Eq, Structural)]
pub enum TransactionFault {
    /// The transaction never raised its isolation level to serializable.
    NotSerializable,
    /// Another transaction was committed after this one began.
    SerializationFailure,
    /// The store has handed out its last version number.
    VersionsExhausted,
    /// The store could not carry out a statement, or could not begin or
    /// commit, for a reason of its own.
    StoreFailure,
    /// The store answered a statement with the answer to another.
    UnexpectedReply,
}

/// The failures of the catalogue.
#[derive(Clone, Copy, Debug, PartialEq, Eq, Structural)]
pub enum AppError {
    /// No book has this id.
    EntityNotFound(BookId),
    /// The request contradicts the loans on record.
    Conflict(Conflict),
    /// A write affected no row.
    UnprocessableState(FailedWrite),
    /// The transaction was not committed.
    TransactionFailure(TransactionFault),
    /// The request breaks a rule on one of its parts.
    ValidationError(InvalidField),
    /// The user may not do this.
    ForbiddenOperation,
}

} // verus!
