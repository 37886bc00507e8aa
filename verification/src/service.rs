//! The dispatcher end to end: route a request, race its handler against
//! the deadline, and synthesize the one response. Every request is a pure
//! function of its own inputs, so requests cannot affect one another.

use vstd::prelude::*;
use vstd::string::*;
use crate::failure::{Failure, FailureV};
use crate::race::{enforce, race, raced_response_spec, HandlerOutcome, HandlerOutcomeV};
use crate::response::{
    internal_error_resp, lemma_error_bodies_nonempty, not_found_resp, not_found_response, ok_resp,
    timeout_resp, RespView, Response, STATUS_OK, STATUS_REQUEST_TIMEOUT,
};
use crate::routes::{dispatch, dispatch_spec, Method, Route};
use crate::sandbox::{opt_error_view, SandboxError, SandboxErrorV};

verus! {

/// Everything one request's outcome depends on: its own method and path,
/// the deadline the middleware grants it, and what its own handler did —
/// how long it ran and, for the sandboxed route, what its invocation
/// returned (`None` for success, a failure's description otherwise).
pub struct RequestInstance {
    pub method: Method,
    pub path: String,
    pub deadline_secs: u64,
    pub delay_secs: u64,
    pub wasm_secs: u64,
    pub wasm_failure: Option<SandboxError>,
}

/// Mathematical view of a request instance.
pub ghost struct RequestInstanceV {
    pub method: Method,
    pub path: Seq<char>,
    pub deadline_secs: int,
    pub delay_secs: int,
    pub wasm_secs: int,
    pub wasm_failure: Option<SandboxErrorV>,
}

impl View for RequestInstance {
    type V = RequestInstanceV;

    open spec fn view(&self) -> RequestInstanceV {
        RequestInstanceV {
            method: self.method,
            path: self.path@,
            deadline_secs: self.deadline_secs as int,
            delay_secs: self.delay_secs as int,
            wasm_secs: self.wasm_secs as int,
            wasm_failure: opt_error_view(self.wasm_failure),
        }
    }
}

/// The handler outcome a sandboxed invocation's result amounts to:
/// success, or the failure carrying the invocation's description.
pub open spec fn invocation_outcome_spec(r: Option<SandboxErrorV>) -> HandlerOutcomeV {
    match r {
        Option::None => HandlerOutcomeV::Success,
        Option::Some(e) => HandlerOutcomeV::Failed {
            failure: FailureV::Sandbox { description: e.description },
        },
    }
}

/// Converts a sandboxed invocation's result into the handler outcome the
/// middleware races.
pub fn invocation_outcome(r: &Option<SandboxError>) -> (o: HandlerOutcome)
    ensures
        o@ == invocation_outcome_spec(opt_error_view(*r)),
{
    match r {
        Option::None => HandlerOutcome::Success,
        Option::Some(e) => HandlerOutcome::Failed {
            failure: Failure::Sandbox { description: e.description.clone() },
        },
    }
}

/// The one response a request yields: the delay handler always completes
/// successfully after its fixed suspension; the sandboxed handler
/// completes with its invocation's result after the call's duration; an
/// unmatched request is answered not-found. Either handler's completion
/// is raced against the deadline.
pub open spec fn respond_spec(r: RequestInstanceV) -> RespView {
    match dispatch_spec(r.method, r.path) {
        Route::Normal => raced_response_spec(
            r.deadline_secs,
            r.delay_secs,
            HandlerOutcomeV::Success,
        ),
        Route::Wasm => raced_response_spec(
            r.deadline_secs,
            r.wasm_secs,
            invocation_outcome_spec(r.wasm_failure),
        ),
        Route::NotFound => not_found_resp(),
    }
}

/// Handles one request end to end.
pub fn respond(r: &RequestInstance) -> (resp: Response)
    ensures
        resp@ == respond_spec(r@),
{
    match dispatch(r.method, r.path.as_str()) {
        Route::Normal => {
            let raced = race(r.deadline_secs, r.delay_secs, HandlerOutcome::Success);
            enforce(&raced)
        },
        Route::Wasm => {
            let outcome = invocation_outcome(&r.wasm_failure);
            let raced = race(r.deadline_secs, r.wasm_secs, outcome);
            enforce(&raced)
        },
        Route::NotFound => not_found_response(),
    }
}

/// Handles a batch of simultaneous requests. Each response is pinned to
/// its own request's inputs alone: nothing about any other request
/// appears in what the i-th response must be.
pub fn respond_all(requests: &Vec<RequestInstance>) -> (resps: Vec<Response>)
    ensures
        resps@.len() == requests@.len(),
        forall|i: int|
            0 <= i < requests@.len() ==> resps@[i]@ == respond_spec(requests@[i]@),
{
    let mut resps: Vec<Response> = Vec::new();
    let mut idx: usize = 0;
    while idx < requests.len()
        invariant
            idx <= requests@.len(),
            resps@.len() == idx,
            forall|i: int| 0 <= i < idx ==> resps@[i]@ == respond_spec(requests@[i]@),
        decreases requests@.len() - idx,
    {
        let resp = respond(&requests[idx]);
        resps.push(resp);
        idx = idx + 1;
    }
    resps
}

/// Requests are handled independently: if two batches agree on their i-th
/// request, they agree on their i-th response, whatever every other
/// request in either batch did — one request's timeout or failure never
/// affects another's response.
pub proof fn lemma_requests_independent(
    a: Seq<RequestInstanceV>,
    b: Seq<RequestInstanceV>,
    i: int,
)
    requires
        0 <= i < a.len(),
        0 <= i < b.len(),
        a[i] == b[i],
    ensures
        respond_spec(a[i]) == respond_spec(b[i]),
{
}

/// A request to the normal path whose suspension completes within the
/// deadline is answered 200 with an empty body.
pub proof fn lemma_normal_within_deadline(r: RequestInstanceV)
    requires
        r.method == Method::Get,
        r.path == "/normal"@,
        r.delay_secs <= r.deadline_secs,
    ensures
        respond_spec(r) == ok_resp(),
{
}

/// With the deadline set shorter than the delay handler's fixed sleep,
/// the normal path always times out: 408 with the fixed message.
pub proof fn lemma_normal_deadline_too_short(r: RequestInstanceV)
    requires
        r.method == Method::Get,
        r.path == "/normal"@,
        r.deadline_secs < r.delay_secs,
    ensures
        respond_spec(r) == timeout_resp(),
{
}

/// With the deadline set longer than the delay handler's fixed sleep, the
/// normal path always succeeds and never times out.
pub proof fn lemma_normal_deadline_generous(r: RequestInstanceV)
    requires
        r.method == Method::Get,
        r.path == "/normal"@,
        r.deadline_secs > r.delay_secs,
    ensures
        respond_spec(r) == ok_resp(),
        respond_spec(r).status != STATUS_REQUEST_TIMEOUT as int,
{
}

/// A sandboxed invocation that fails is never reported as success: if its
/// completion is observed within the deadline the client sees 500 with a
/// non-empty rendering of the failure, and otherwise 408 — never 200.
pub proof fn lemma_wasm_failure_never_ok(r: RequestInstanceV, e: SandboxErrorV)
    requires
        r.method == Method::Get,
        r.path == "/wasm"@,
        r.wasm_failure == Option::Some(e),
    ensures
        respond_spec(r).status != STATUS_OK as int,
        r.wasm_secs <= r.deadline_secs ==> respond_spec(r) == internal_error_resp(e.description),
        r.wasm_secs <= r.deadline_secs ==> respond_spec(r).body.len() > e.description.len(),
{
    reveal_strlit("/normal");
    reveal_strlit("/wasm");
    assert("/normal"@.len() == 7);
    assert("/wasm"@.len() == 5);
    lemma_error_bodies_nonempty(e.description);
}

/// If the deadline elapses before the sandboxed call returns, the client
/// receives the timeout response — whatever the call eventually returns.
pub proof fn lemma_wasm_deadline_first(r: RequestInstanceV)
    requires
        r.method == Method::Get,
        r.path == "/wasm"@,
        r.wasm_secs > r.deadline_secs,
    ensures
        respond_spec(r) == timeout_resp(),
{
    reveal_strlit("/normal");
    reveal_strlit("/wasm");
    assert("/normal"@.len() == 7);
    assert("/wasm"@.len() == 5);
}

} // verus!
