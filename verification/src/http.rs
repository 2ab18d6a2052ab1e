//! Requests, responses, and the fixed response bodies the handlers produce.

use vstd::prelude::*;

verus! {

/// The request method, decoded from the wire by the caller.
#[derive(Clone, Copy, PartialEq, Eq, Structural, Debug)]
pub enum Method {
    Get,
    Post,
    Put,
    Delete,
    Head,
    Options,
    Patch,
    Other,
}

/// An inbound request, immutable once received. The body is carried along
/// but no handler reads it.
pub struct Request {
    pub method: Method,
    pub path: String,
    pub body: Vec<u8>,
}

/// An outbound response: a status code and a body.
pub struct Response {
    pub status: u16,
    pub body: String,
}

pub const STATUS_OK: u16 = 200;

pub const STATUS_NOT_FOUND: u16 = 404;

pub const STATUS_INTERNAL_ERROR: u16 = 500;

/// The fixed body of a successful index response.
pub open spec fn hello_body() -> Seq<char> {
    "Hello, World"@
}

/// The fixed success response of the index handler.
pub fn hello_response() -> (r: Response)
    ensures
        r.status == STATUS_OK,
        r.body@ == hello_body(),
{
    Response { status: STATUS_OK, body: "Hello, World".to_owned() }
}

/// A miss of the route table always answers 404 with an empty body,
/// whatever the request held.
pub fn not_found(_request: &Request) -> (r: Response)
    ensures
        r.status == STATUS_NOT_FOUND,
        r.body@ == Seq::<char>::empty(),
{
    Response { status: STATUS_NOT_FOUND, body: String::new() }
}

} // verus!
