//! Roles that a user can hold.
use vstd::prelude::*;

verus! {

/// What a user is allowed to do.
#[derive(Clone, Copy, Debug, PartialEq, Eq, Structural, Hash)]
pub enum Role {
    /// May manage users and every book.
    Admin,
    /// May manage their own books.
    User,
}

} // verus!
