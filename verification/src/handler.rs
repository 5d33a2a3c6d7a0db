//! The placeholder request handler.
//!
//! Every inbound request, whatever its method or path, receives the same
//! fixed response: status 200 with a short text body. The handler is the
//! seam where real proxy behaviour would later be injected; nothing in
//! the lifecycle depends on its content.

use vstd::prelude::*;

verus! {

/// The HTTP status code of the placeholder response.
pub const PLACEHOLDER_STATUS: u16 = 200;

/// The characters of the placeholder response body.
pub open spec fn placeholder_text() -> Seq<char> {
    "roxy is local dev proxy that rox!"@
}

/// A response as the lifecycle sees it: a status code and a text body.
/// The transport layer turns it into a wire-level HTTP response.
pub struct HandlerResponse {
    pub status: u16,
    pub body: String,
}

/// The constant responder: ignores the request and answers 200 with the
/// placeholder body.
pub fn ping() -> (r: HandlerResponse)
    ensures
        r.status == PLACEHOLDER_STATUS,
        r.body@ == placeholder_text(),
{
    HandlerResponse {
        status: PLACEHOLDER_STATUS,
        body: String::from_str("roxy is local dev proxy that rox!"),
    }
}

} // verus!
