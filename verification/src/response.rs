//! What a client gets back: a status code and a body that is always empty.

use vstd::prelude::*;

verus! {

/// Status of a request that was carried out.
pub const OK: u16 = 200;

/// Status of a request whose body is incomplete or malformed.
pub const BAD_REQUEST: u16 = 400;

/// Status of a request that the store could not carry out.
pub const INTERNAL_SERVER_ERROR: u16 = 500;

/// An HTTP response, reduced to what this service ever sends.
#[derive(Debug)]
pub struct Response {
    pub status: u16,
    pub body: Vec<u8>,
}

impl Response {
    /// Whether this is the response with the given status and no body.
    pub open spec fn is_bare(self, status: u16) -> bool {
        self.status == status && self.body@ =~= Seq::<u8>::empty()
    }

    /// Builds the response with the given status and no body.
    pub fn empty(status: u16) -> (response: Response)
        ensures
            response.is_bare(status),
    {
        Response { status, body: Vec::new() }
    }

    /// Whether the status is one of the 2xx codes.
    pub fn is_success(&self) -> (success: bool)
        ensures
            success == (200 <= self.status < 300),
    {
        200 <= self.status && self.status < 300
    }

    /// Length of the body in bytes.
    pub fn content_length(&self) -> (length: usize)
        ensures
            length == self.body@.len(),
    {
        self.body.len()
    }
}

/// The liveness probe: always 200 with an empty body, whatever state the
/// rest of the service is in.
pub fn health_check() -> (response: Response)
    ensures
        response.is_bare(OK),
{
    Response::empty(OK)
}

} // verus!
