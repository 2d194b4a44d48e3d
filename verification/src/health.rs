//! Liveness and readiness: two endpoints that answer the same thing for as
//! long as the process runs.

use vstd::prelude::*;
use crate::response::{plain, Response, OK};

verus! {

/// Answers the liveness probe: 200 with the body `Healthy`, whatever else
/// the server is doing.
pub fn health() -> (response: Response)
    ensures
        response@ == plain(200, "Healthy"@),
{
    Response::plain(OK, "Healthy")
}

/// Answers the readiness probe: 200 with the body `Ready`, whatever else
/// the server is doing.
pub fn readiness() -> (response: Response)
    ensures
        response@ == plain(200, "Ready"@),
{
    Response::plain(OK, "Ready")
}

} // verus!
