//! The HTTP responses the dispatcher can produce, and their mathematical
//! views. A response is a status code paired with a body; every request
//! yields exactly one of: success, timeout, internal error, or not-found.

use vstd::prelude::*;
use vstd::string::*;

verus! {

/// Status code of a successful (empty-bodied) response.
pub const STATUS_OK: u16 = 200;

/// Status code reported when the deadline elapsed first.
pub const STATUS_REQUEST_TIMEOUT: u16 = 408;

/// Status code reported for any handler-surfaced failure.
pub const STATUS_INTERNAL_ERROR: u16 = 500;

/// Status code for a path the route table does not know.
pub const STATUS_NOT_FOUND: u16 = 404;

/// Mathematical view of a response: a status code and the body's characters.
#[verifier::ext_equal]
pub ghost struct RespView {
    pub status: int,
    pub body: Seq<char>,
}

/// One HTTP response, produced exactly once per request.
pub struct Response {
    pub status: u16,
    pub body: String,
}

impl View for Response {
    type V = RespView;

    open spec fn view(&self) -> RespView {
        RespView { status: self.status as int, body: self.body@ }
    }
}

/// The successful response: 200 with an empty body.
pub open spec fn ok_resp() -> RespView {
    RespView { status: STATUS_OK as int, body: Seq::<char>::empty() }
}

/// The timeout response: 408 with its fixed message.
pub open spec fn timeout_resp() -> RespView {
    RespView { status: STATUS_REQUEST_TIMEOUT as int, body: "Request took too long"@ }
}

/// The internal-error response: 500, the body prefixing the failure's
/// description with a fixed rendering header.
pub open spec fn internal_error_resp(description: Seq<char>) -> RespView {
    RespView {
        status: STATUS_INTERNAL_ERROR as int,
        body: "Unhandled internal error: "@ + description,
    }
}

/// The not-found response: 404 with an empty body.
pub open spec fn not_found_resp() -> RespView {
    RespView { status: STATUS_NOT_FOUND as int, body: Seq::<char>::empty() }
}

/// Builds the successful response.
pub fn ok_response() -> (r: Response)
    ensures
        r@ == ok_resp(),
{
    let r = Response { status: STATUS_OK, body: String::new() };
    proof {
        assert(r@ =~= ok_resp());
    }
    r
}

/// Builds the timeout response.
pub fn timeout_response() -> (r: Response)
    ensures
        r@ == timeout_resp(),
{
    let r = Response {
        status: STATUS_REQUEST_TIMEOUT,
        body: String::from_str("Request took too long"),
    };
    proof {
        assert(r@ =~= timeout_resp());
    }
    r
}

/// Builds the internal-error response for a failure's description.
pub fn internal_error_response(description: &String) -> (r: Response)
    ensures
        r@ == internal_error_resp(description@),
{
    let body = String::from_str("Unhandled internal error: ").concat(description.as_str());
    let r = Response { status: STATUS_INTERNAL_ERROR, body };
    proof {
        assert(r@ =~= internal_error_resp(description@));
    }
    r
}

/// Builds the not-found response.
pub fn not_found_response() -> (r: Response)
    ensures
        r@ == not_found_resp(),
{
    let r = Response { status: STATUS_NOT_FOUND, body: String::new() };
    proof {
        assert(r@ =~= not_found_resp());
    }
    r
}

/// The timeout body and the internal-error body are never empty, and the
/// internal-error body always carries the failure's description after its
/// fixed header.
pub proof fn lemma_error_bodies_nonempty(description: Seq<char>)
    ensures
        timeout_resp().body.len() > 0,
        internal_error_resp(description).body.len() > description.len(),
{
    reveal_strlit("Request took too long");
    reveal_strlit("Unhandled internal error: ");
}

} // verus!
