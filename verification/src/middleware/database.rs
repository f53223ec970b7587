use vstd::prelude::*;

use crate::error::{ApiError, ApiErrorType, ErrorView};

verus! {

/// The connection pool the request carries; a request without one (the
/// database middleware did not run) is refused.
pub fn require_pool<P>(pool: Option<P>) -> (r: Result<P, ApiErrorType>)
    ensures
        pool is Some ==> r == Ok::<P, ApiErrorType>(pool->0),
        pool is None ==> (r matches Err(e) && e@ == ErrorView::ApiUnknown("Something went wrong!"@)),
{
    match pool {
        Some(pool) => Ok(pool),
        None => Err(ApiErrorType::Api(ApiError::Unknown("Something went wrong!".to_owned()))),
    }
}

} // verus!
