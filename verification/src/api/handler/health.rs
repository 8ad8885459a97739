//! Requests about the health of the service.
use vstd::prelude::*;
use crate::api::handler::StatusCode;

verus! {

/// Answers that the service is up.
pub fn health_check() -> (status: StatusCode)
    ensures
        status == StatusCode::Done,
{
    StatusCode::Done
}

/// Answers whether the store is up, given whether it answered.
pub fn health_check_db(store_answers: bool) -> (status: StatusCode)
    ensures
        status == if store_answers {
            StatusCode::Done
        } else {
            StatusCode::InternalServerError
        },
{
    if store_answers {
        StatusCode::Done
    } else {
        StatusCode::InternalServerError
    }
}

} // verus!
