//! The timeout middleware's deadline race. The middleware starts a handler
//! and a deadline timer together; whichever the race primitive reports
//! first determines the one response. Losing the race abandons the waiting
//! only, never the handler's own execution.

use vstd::prelude::*;
use crate::failure::{translate, translate_spec, Failure, FailureV};
use crate::response::{ok_resp, ok_response, RespView, Response};

verus! {

/// What a handler's completed execution produced: an empty-bodied success,
/// or a failure it surfaced.
pub enum HandlerOutcome {
    Success,
    Failed { failure: Failure },
}

/// Mathematical view of a handler outcome.
pub ghost enum HandlerOutcomeV {
    Success,
    Failed { failure: FailureV },
}

impl View for HandlerOutcome {
    type V = HandlerOutcomeV;

    open spec fn view(&self) -> HandlerOutcomeV {
        match self {
            HandlerOutcome::Success => HandlerOutcomeV::Success,
            HandlerOutcome::Failed { failure } => HandlerOutcomeV::Failed { failure: failure@ },
        }
    }
}

/// Which of the two racing operations finished first, as reported by the
/// race primitive.
pub enum RaceResult {
    HandlerFirst { outcome: HandlerOutcome },
    DeadlineFirst,
}

/// Mathematical view of a race result.
pub ghost enum RaceResultV {
    HandlerFirst { outcome: HandlerOutcomeV },
    DeadlineFirst,
}

impl View for RaceResult {
    type V = RaceResultV;

    open spec fn view(&self) -> RaceResultV {
        match self {
            RaceResult::HandlerFirst { outcome } => RaceResultV::HandlerFirst {
                outcome: outcome@,
            },
            RaceResult::DeadlineFirst => RaceResultV::DeadlineFirst,
        }
    }
}

/// Who wins the race, given both durations: the handler's completion is
/// observed exactly when it does not outlast the deadline. Under a given
/// pair of durations the winner is determined — the race is deterministic
/// for a given completion order.
pub open spec fn race_spec(
    deadline_secs: int,
    handler_secs: int,
    outcome: HandlerOutcomeV,
) -> RaceResultV {
    if handler_secs <= deadline_secs {
        RaceResultV::HandlerFirst { outcome }
    } else {
        RaceResultV::DeadlineFirst
    }
}

/// Resolves the race for a handler that runs `handler_secs` against a
/// deadline of `deadline_secs`, completing with `outcome`.
pub fn race(deadline_secs: u64, handler_secs: u64, outcome: HandlerOutcome) -> (r: RaceResult)
    ensures
        r@ == race_spec(deadline_secs as int, handler_secs as int, outcome@),
{
    if handler_secs <= deadline_secs {
        RaceResult::HandlerFirst { outcome }
    } else {
        RaceResult::DeadlineFirst
    }
}

/// The one response a race result yields: a completed handler's result is
/// forwarded unchanged — success as 200 with an empty body, a surfaced
/// failure through the translator — and an elapsed deadline becomes the
/// translated deadline-exceeded failure. A handler failure is never masked
/// as success.
pub open spec fn enforce_spec(r: RaceResultV) -> RespView {
    match r {
        RaceResultV::HandlerFirst { outcome } => match outcome {
            HandlerOutcomeV::Success => ok_resp(),
            HandlerOutcomeV::Failed { failure } => translate_spec(failure),
        },
        RaceResultV::DeadlineFirst => translate_spec(FailureV::DeadlineExceeded),
    }
}

/// Synthesizes the response for an observed race result.
pub fn enforce(r: &RaceResult) -> (resp: Response)
    ensures
        resp@ == enforce_spec(r@),
{
    match r {
        RaceResult::HandlerFirst { outcome } => match outcome {
            HandlerOutcome::Success => ok_response(),
            HandlerOutcome::Failed { failure } => translate(failure),
        },
        RaceResult::DeadlineFirst => translate(&Failure::DeadlineExceeded),
    }
}

/// The response for a handler with known durations: the race resolved,
/// then enforced.
pub open spec fn raced_response_spec(
    deadline_secs: int,
    handler_secs: int,
    outcome: HandlerOutcomeV,
) -> RespView {
    enforce_spec(race_spec(deadline_secs, handler_secs, outcome))
}

} // verus!
