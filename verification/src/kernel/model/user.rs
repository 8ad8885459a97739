//! Users, and the parts of a user that other entities show.
use vstd::prelude::*;
use crate::kernel::model::id::UserId;
use crate::kernel::model::role::Role;

verus! {

/// A registered user.
#[derive(Debug, PartialEq, Eq)]
pub struct User {
    pub id: UserId,
    pub name: String,
    pub email: String,
    pub role: Role,
}

/// The user who registered a book.
#[derive(Debug, PartialEq, Eq)]
pub struct BookOwner {
    pub id: UserId,
    pub name: String,
}

/// The user who borrowed a book.
#[derive(Debug, PartialEq, Eq)]
pub struct CheckoutUser {
    pub id: UserId,
    pub name: String,
}

impl Clone for BookOwner {
    fn clone(&self) -> (copy: Self)
        ensures
            copy == *self,
    {
        BookOwner { id: self.id, name: self.name.clone() }
    }
}

impl Clone for CheckoutUser {
    fn clone(&self) -> (copy: Self)
        ensures
            copy == *self,
    {
        CheckoutUser { id: self.id, name: self.name.clone() }
    }
}

/// Registers a user.
#[derive(Debug, PartialEq, Eq)]
pub struct CreateUser {
    pub name: String,
    pub email: String,
    pub password: String,
}

/// Replaces a user's password.
#[derive(Debug, PartialEq, Eq)]
pub struct UpdateUserPassword {
    pub user_id: UserId,
    pub current_password: String,
    pub new_password: String,
}

/// Gives a user another role.
#[derive(Debug, PartialEq, Eq)]
pub struct UpdateUserRole {
    pub user_id: UserId,
    pub role: Role,
}

/// Removes a user.
#[derive(Debug, PartialEq, Eq)]
pub struct DeleteUser {
    pub user_id: UserId,
}

} // verus!
