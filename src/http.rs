//! Responses, independent of any web framework.

use vstd::prelude::*;

verus! {

/// Status of a request that was served.
pub const STATUS_OK: u16 = 200;

/// Status of a request whose body could not be accepted.
pub const STATUS_BAD_REQUEST: u16 = 400;

/// Status of a request that failed on the server's side.
pub const STATUS_INTERNAL_SERVER_ERROR: u16 = 500;

/// An HTTP response: a status code and a body.
pub struct Response {
    pub status: u16,
    pub body: Vec<u8>,
}

impl Response {
    /// A response with the given status and no body.
    pub fn empty(status: u16) -> (r: Response)
        ensures
            r.status == status,
            r.body@.len() == 0,
    {
        Response { status, body: Vec::new() }
    }

    /// Whether the status is in the 2xx range.
    pub fn is_success(&self) -> (r: bool)
        ensures
            r == (200 <= self.status < 300),
    {
        200 <= self.status && self.status < 300
    }

    /// The number of bytes in the body.
    pub fn content_length(&self) -> (r: usize)
        ensures
            r == self.body@.len(),
    {
        self.body.len()
    }
}

/// Answers a liveness probe: always 200 with an empty body. It reads nothing
/// and touches no store.
pub fn health_check() -> (r: Response)
    ensures
        r.status == STATUS_OK,
        r.body@.len() == 0,
{
    Response::empty(STATUS_OK)
}

} // verus!
