//! Requests about users.
use vstd::prelude::*;
use vstd::std_specs::convert::FromSpec;
use crate::adapter::database::store::LoanFilter;
use crate::adapter::repository::checkout::{checkouts_of, CheckoutRepositoryImpl};
use crate::api::model::checkout::{checkout_responses_of, CheckoutsResponse};
use crate::api::model::user::UserReponse;
use crate::error::AppError;
use crate::kernel::model::id::UserId;
use crate::kernel::model::user::User;

verus! {

/// Lets an administrator through and stops everyone else: registering and
/// removing users and changing their roles is for administrators.
pub fn require_admin(is_admin: bool) -> (result: Result<(), AppError>)
    ensures
        result == if is_admin {
            Ok::<(), AppError>(())
        } else {
            Err::<(), AppError>(AppError::ForbiddenOperation)
        },
{
    if !is_admin {
        return Err(AppError::ForbiddenOperation);
    }
    Ok(())
}

/// Shows the user who asks.
pub fn get_current_user(user: User) -> (response: UserReponse)
    ensures
        response == UserReponse::from_spec(user),
{
    UserReponse::from(user)
}

/// Lists the open loans of the user who asks, the oldest checkout first.
pub fn get_checkouts(repository: &CheckoutRepositoryImpl, user_id: UserId) -> (result: Result<
    CheckoutsResponse,
    AppError,
>)
    ensures
        result is Ok,
        result->Ok_0.items@ == checkout_responses_of(
            checkouts_of(repository@.unreturned(LoanFilter::ByUser(user_id))),
        ),
{
    match repository.find_unreturned_by_user_id(user_id) {
        Ok(checkouts) => Ok(CheckoutsResponse::from(checkouts)),
        Err(e) => Err(e),
    }
}

} // verus!
