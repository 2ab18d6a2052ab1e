//! The route table: an exact match on (GET, "/") reaches the index handler,
//! every other method/path pair the not-found handler.

use vstd::prelude::*;
use crate::http::{Method, Request};

verus! {

/// The fixed set of handlers a request can be dispatched to.
#[derive(Clone, Copy, PartialEq, Eq, Structural, Debug)]
pub enum Route {
    Index,
    NotFound,
}

/// The matching rule: exact equality on method and path, no prefixes,
/// no wildcards.
pub open spec fn spec_route(method: Method, path: Seq<char>) -> Route {
    if method == Method::Get && path == "/"@ {
        Route::Index
    } else {
        Route::NotFound
    }
}

/// Dispatch a request. Never fails; any failure belongs to the chosen
/// handler.
pub fn route(request: &Request) -> (r: Route)
    ensures
        r == spec_route(request.method, request.path@),
{
    let root: String = "/".to_owned();
    if request.method == Method::Get && request.path == root {
        Route::Index
    } else {
        Route::NotFound
    }
}

} // verus!
