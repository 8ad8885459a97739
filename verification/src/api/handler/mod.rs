//! What each request does, from the values that the transport layer has
//! read to the value that it sends back.
pub mod book;
pub mod checkout;
pub mod health;
pub mod user;

use vstd::prelude::*;

verus! {

/// The status that a request is answered with.
#[derive(Clone, Copy, Debug, PartialEq, Eq, Structural)]
pub enum StatusCode {
    /// 200: done.
    Done,
    /// 201: done, and something was created.
    Created,
    /// 204: done, and there is nothing to show.
    NoContent,
    /// 500: the service cannot answer.
    InternalServerError,
}

impl StatusCode {
    /// The number of the status.
    pub fn as_u16(&self) -> (code: u16)
        ensures
            code == match self {
                StatusCode::Done => 200u16,
                StatusCode::Created => 201u16,
                StatusCode::NoContent => 204u16,
                StatusCode::InternalServerError => 500u16,
            },
    {
        match self {
            StatusCode::Done => 200,
            StatusCode::Created => 201,
            StatusCode::NoContent => 204,
            StatusCode::InternalServerError => 500,
        }
    }
}

/// Whether `result` reports `outcome`: success with the status `success`
/// and the store that the outcome names, or the outcome's failure with the
/// store as it was.
pub open spec fn answers<T>(
    before: T,
    after: T,
    result: Result<StatusCode, crate::error::AppError>,
    outcome: Result<T, crate::error::AppError>,
    success: StatusCode,
) -> bool {
    match result {
        Ok(status) => status == success && outcome == Ok::<T, crate::error::AppError>(after),
        Err(e) => outcome == Err::<T, crate::error::AppError>(e) && after == before,
    }
}

} // verus!
