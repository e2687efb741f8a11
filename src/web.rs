//! How query errors map to HTTP statuses.
use vstd::prelude::*;
use crate::lotterycache::LotteryError;

verus! {

/// Status of a request that cannot be served as asked.
pub const STATUS_BAD_REQUEST: u16 = 400;

/// Status of an unexpected failure.
pub const STATUS_INTERNAL_SERVER_ERROR: u16 = 500;

/// Status of a service that has nothing to serve for now.
pub const STATUS_SERVICE_UNAVAILABLE: u16 = 503;

/// The HTTP status that answers a query failing with `e`: a refused draw is
/// the caller's fault, an absent event makes the service unavailable, and
/// anything else is a server error.
pub open spec fn status_of(e: LotteryError) -> u16 {
    match e {
        LotteryError::DrawError { .. } => STATUS_BAD_REQUEST,
        LotteryError::NoEventAvailable => STATUS_SERVICE_UNAVAILABLE,
        LotteryError::LockError => STATUS_INTERNAL_SERVER_ERROR,
    }
}

/// The HTTP status that answers a query failing with `e`.
pub fn error_status(e: &LotteryError) -> (r: u16)
    ensures
        r == status_of(*e),
{
    match e {
        LotteryError::DrawError { .. } => STATUS_BAD_REQUEST,
        LotteryError::NoEventAvailable => STATUS_SERVICE_UNAVAILABLE,
        LotteryError::LockError => STATUS_INTERNAL_SERVER_ERROR,
    }
}

} // verus!
