//! The per-request response lifecycle. A request's task observes exactly
//! one of {handler completion, deadline expiry} and writes a status code
//! once; whatever arrives after that — the loser of the race eventually
//! finishing, a late failure — changes nothing that the client sees.

use vstd::prelude::*;
use crate::race::{
    enforce, enforce_spec, HandlerOutcome, HandlerOutcomeV, RaceResult, RaceResultV,
};
use crate::response::{RespView, Response};

verus! {

/// An event a request's task can observe from the race: its handler
/// completed, or its deadline elapsed.
pub enum ReqEvent {
    HandlerDone { outcome: HandlerOutcome },
    DeadlineElapsed,
}

/// Mathematical view of a request event.
pub ghost enum ReqEventV {
    HandlerDone { outcome: HandlerOutcomeV },
    DeadlineElapsed,
}

impl View for ReqEvent {
    type V = ReqEventV;

    open spec fn view(&self) -> ReqEventV {
        match self {
            ReqEvent::HandlerDone { outcome } => ReqEventV::HandlerDone { outcome: outcome@ },
            ReqEvent::DeadlineElapsed => ReqEventV::DeadlineElapsed,
        }
    }
}

/// The response a single event determines, were it the one observed first.
pub open spec fn response_of_event(e: ReqEventV) -> RespView {
    match e {
        ReqEventV::HandlerDone { outcome } => enforce_spec(
            RaceResultV::HandlerFirst { outcome },
        ),
        ReqEventV::DeadlineElapsed => enforce_spec(RaceResultV::DeadlineFirst),
    }
}

/// The response slot of one in-flight request: empty until the first race
/// event is observed, then holding the one response ever sent.
pub struct ResponseSlot {
    pub response: Option<Response>,
}

/// View of a slot: the response written so far, if any.
pub open spec fn slot_view(s: ResponseSlot) -> Option<RespView> {
    match s.response {
        Option::None => Option::None,
        Option::Some(r) => Option::Some(r@),
    }
}

/// What one observation does to the slot: a first event writes its
/// response; any later event leaves the slot untouched.
pub open spec fn observe_spec(slot: Option<RespView>, e: ReqEventV) -> Option<RespView> {
    match slot {
        Option::None => Option::Some(response_of_event(e)),
        Option::Some(r) => Option::Some(r),
    }
}

/// A fresh slot, with nothing written.
pub fn empty_slot() -> (s: ResponseSlot)
    ensures
        slot_view(s) is None,
{
    ResponseSlot { response: None }
}

/// Observes one race event: writes the response if none has been written,
/// and discards the event otherwise.
pub fn observe(slot: &mut ResponseSlot, e: ReqEvent)
    ensures
        slot_view(*final(slot)) == observe_spec(slot_view(*old(slot)), e@),
{
    if slot.response.is_none() {
        let r = match e {
            ReqEvent::HandlerDone { outcome } => enforce(
                &RaceResult::HandlerFirst { outcome },
            ),
            ReqEvent::DeadlineElapsed => enforce(&RaceResult::DeadlineFirst),
        };
        slot.response = Some(r);
    }
}

/// The slot after a whole sequence of observed events.
pub open spec fn run_observations(slot: Option<RespView>, events: Seq<ReqEventV>) -> Option<
    RespView,
>
    decreases events.len(),
{
    if events.len() == 0 {
        slot
    } else {
        run_observations(observe_spec(slot, events.first()), events.drop_first())
    }
}

/// How many of the observations write a status code: those that find the
/// slot empty.
pub open spec fn write_count(slot: Option<RespView>, events: Seq<ReqEventV>) -> nat
    decreases events.len(),
{
    if events.len() == 0 {
        0
    } else {
        (if slot is None {
            1nat
        } else {
            0nat
        }) + write_count(observe_spec(slot, events.first()), events.drop_first())
    }
}

/// A written slot never changes again, and no further observation writes.
pub proof fn lemma_written_slot_is_final(r: RespView, events: Seq<ReqEventV>)
    ensures
        run_observations(Option::Some(r), events) == Option::Some(r),
        write_count(Option::Some(r), events) == 0,
    decreases events.len(),
{
    if events.len() > 0 {
        lemma_written_slot_is_final(r, events.drop_first());
    }
}

/// Exactly-once response: over any non-empty sequence of race events, a
/// request writes a status code exactly once, and the response sent is the
/// one determined by the first event observed — ties fall to whichever the
/// race primitive reported first.
pub proof fn lemma_response_exactly_once(events: Seq<ReqEventV>)
    requires
        events.len() > 0,
    ensures
        write_count(Option::None, events) == 1,
        run_observations(Option::None, events) == Option::Some(
            response_of_event(events.first()),
        ),
{
    lemma_written_slot_is_final(response_of_event(events.first()), events.drop_first());
}

} // verus!
