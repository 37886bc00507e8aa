//! The failure taxonomy and the error translator: every failure the
//! middleware can observe is converted to exactly one status/message pair.

use vstd::prelude::*;
use crate::response::{
    internal_error_resp, internal_error_response, timeout_resp, timeout_response, RespView,
    Response,
};

verus! {

/// A failure observed by the timeout middleware: either the deadline
/// elapsed before the handler produced a result, or the handler itself
/// surfaced a failure (here, always from the sandboxed invocation path),
/// carried with a rendering of its description.
pub enum Failure {
    DeadlineExceeded,
    Sandbox { description: String },
}

/// Mathematical view of a failure.
pub ghost enum FailureV {
    DeadlineExceeded,
    Sandbox { description: Seq<char> },
}

impl View for Failure {
    type V = FailureV;

    open spec fn view(&self) -> FailureV {
        match self {
            Failure::DeadlineExceeded => FailureV::DeadlineExceeded,
            Failure::Sandbox { description } => FailureV::Sandbox {
                description: description@,
            },
        }
    }
}

/// What the translator returns for each failure: a deadline-exceeded
/// failure becomes the fixed 408 response; any other failure becomes a 500
/// response whose body renders the failure's description.
pub open spec fn translate_spec(f: FailureV) -> RespView {
    match f {
        FailureV::DeadlineExceeded => timeout_resp(),
        FailureV::Sandbox { description } => internal_error_resp(description),
    }
}

/// Translates a failure into the one response the client sees.
pub fn translate(f: &Failure) -> (r: Response)
    ensures
        r@ == translate_spec(f@),
{
    match f {
        Failure::DeadlineExceeded => timeout_response(),
        Failure::Sandbox { description } => internal_error_response(description),
    }
}

/// Translation is idempotent: translating the same failure value twice
/// yields the same status/message pair, since the translator's result is
/// a function of the failure alone.
pub proof fn lemma_translate_idempotent(f: FailureV, r1: RespView, r2: RespView)
    requires
        r1 == translate_spec(f),
        r2 == translate_spec(f),
    ensures
        r1 == r2,
{
}

} // verus!
