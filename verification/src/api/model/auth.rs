//! Logging in.
use vstd::prelude::*;
use crate::kernel::model::id::UserId;

verus! {

/// Asks for an access token.
#[derive(Debug, PartialEq, Eq)]
pub struct LoginRequest {
    pub email: String,
    pub password: String,
}

/// The access token of a user who logged in.
#[derive(Debug, PartialEq, Eq)]
pub struct AccessTokenResponse {
    pub user_id: UserId,
    pub access_token: String,
}

} // verus!
