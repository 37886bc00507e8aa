//! End-to-end behavior of the dispatcher's decision logic on concrete
//! requests: routing, the deadline race, error translation, and batches.

use deadline_dispatch::failure::{translate, Failure};
use deadline_dispatch::race::{enforce, race, HandlerOutcome, RaceResult};
use deadline_dispatch::response::{
    internal_error_response, not_found_response, ok_response, timeout_response,
};
use deadline_dispatch::routes::{dispatch, Method, Route};
use deadline_dispatch::sandbox::SandboxError;
use deadline_dispatch::service::{respond, respond_all, RequestInstance};
use deadline_dispatch::{DEADLINE_SECS, DELAY_SECS};

fn normal_request(deadline_secs: u64, delay_secs: u64) -> RequestInstance {
    RequestInstance {
        method: Method::Get,
        path: "/normal".to_string(),
        deadline_secs,
        delay_secs,
        wasm_secs: 0,
        wasm_failure: None,
    }
}

fn wasm_request(
    deadline_secs: u64,
    wasm_secs: u64,
    wasm_failure: Option<SandboxError>,
) -> RequestInstance {
    RequestInstance {
        method: Method::Get,
        path: "/wasm".to_string(),
        deadline_secs,
        delay_secs: DELAY_SECS,
        wasm_secs,
        wasm_failure,
    }
}

#[test]
fn normal_within_deadline_is_ok() {
    let r = respond(&normal_request(2, 1));
    assert_eq!(r.status, 200);
    assert_eq!(r.body, "");
}

#[test]
fn normal_with_reference_constants_times_out() {
    // The default configuration: a one-second budget against a
    // two-second suspension always times out.
    assert!(DEADLINE_SECS < DELAY_SECS);
    let r = respond(&normal_request(DEADLINE_SECS, DELAY_SECS));
    assert_eq!(r.status, 408);
    assert_eq!(r.body, "Request took too long");
}

#[test]
fn normal_with_generous_deadline_never_times_out() {
    let r = respond(&normal_request(3, 2));
    assert_eq!(r.status, 200);
    assert_eq!(r.body, "");
}

#[test]
fn normal_tie_resolves_to_handler() {
    let r = respond(&normal_request(2, 2));
    assert_eq!(r.status, 200);
    assert_eq!(r.body, "");
}

#[test]
fn wasm_success_within_deadline_is_ok() {
    let r = respond(&wasm_request(5, 1, None));
    assert_eq!(r.status, 200);
    assert_eq!(r.body, "");
}

#[test]
fn wasm_failure_is_internal_error() {
    let e = SandboxError { description: "module not found".to_string() };
    let r = respond(&wasm_request(5, 1, Some(e)));
    assert_eq!(r.status, 500);
    assert_eq!(r.body, "Unhandled internal error: module not found");
    assert!(!r.body.is_empty());
}

#[test]
fn wasm_failure_is_never_ok() {
    for deadline in 0..4u64 {
        let e = SandboxError { description: "entry point missing".to_string() };
        let r = respond(&wasm_request(deadline, 2, Some(e)));
        assert_ne!(r.status, 200);
    }
}

#[test]
fn wasm_slower_than_deadline_times_out() {
    let r = respond(&wasm_request(1, 600, None));
    assert_eq!(r.status, 408);
    assert_eq!(r.body, "Request took too long");
}

#[test]
fn unknown_path_is_not_found() {
    let r = respond(&RequestInstance {
        method: Method::Get,
        path: "/missing".to_string(),
        deadline_secs: DEADLINE_SECS,
        delay_secs: DELAY_SECS,
        wasm_secs: 0,
        wasm_failure: None,
    });
    assert_eq!(r.status, 404);
    assert_eq!(r.body, "");
}

#[test]
fn non_get_method_is_not_found() {
    let r = respond(&RequestInstance {
        method: Method::Other,
        path: "/normal".to_string(),
        deadline_secs: DEADLINE_SECS,
        delay_secs: DELAY_SECS,
        wasm_secs: 0,
        wasm_failure: None,
    });
    assert_eq!(r.status, 404);
}

#[test]
fn dispatch_resolves_the_two_routes() {
    assert_eq!(dispatch(Method::Get, "/normal"), Route::Normal);
    assert_eq!(dispatch(Method::Get, "/wasm"), Route::Wasm);
    assert_eq!(dispatch(Method::Get, "/"), Route::NotFound);
    assert_eq!(dispatch(Method::Get, "/normal/"), Route::NotFound);
    assert_eq!(dispatch(Method::Other, "/wasm"), Route::NotFound);
}

#[test]
fn translate_deadline_exceeded() {
    let r = translate(&Failure::DeadlineExceeded);
    assert_eq!(r.status, 408);
    assert_eq!(r.body, "Request took too long");
}

#[test]
fn translate_sandbox_failure() {
    let f = Failure::Sandbox { description: "vm creation failed".to_string() };
    let r = translate(&f);
    assert_eq!(r.status, 500);
    assert_eq!(r.body, "Unhandled internal error: vm creation failed");
}

#[test]
fn translate_is_idempotent() {
    let f = Failure::Sandbox { description: "boom".to_string() };
    let r1 = translate(&f);
    let r2 = translate(&f);
    assert_eq!(r1.status, r2.status);
    assert_eq!(r1.body, r2.body);
    let t1 = translate(&Failure::DeadlineExceeded);
    let t2 = translate(&Failure::DeadlineExceeded);
    assert_eq!(t1.status, t2.status);
    assert_eq!(t1.body, t2.body);
}

#[test]
fn race_reports_first_to_finish() {
    let early = race(3, 2, HandlerOutcome::Success);
    assert!(matches!(early, RaceResult::HandlerFirst { .. }));
    let late = race(3, 4, HandlerOutcome::Success);
    assert!(matches!(late, RaceResult::DeadlineFirst));
}

#[test]
fn enforce_forwards_handler_failure_unmasked() {
    let raced = RaceResult::HandlerFirst {
        outcome: HandlerOutcome::Failed {
            failure: Failure::Sandbox { description: "trap".to_string() },
        },
    };
    let r = enforce(&raced);
    assert_eq!(r.status, 500);
    assert_eq!(r.body, "Unhandled internal error: trap");
}

#[test]
fn response_builders_have_exact_values() {
    let ok = ok_response();
    assert_eq!(ok.status, 200);
    assert_eq!(ok.body, "");
    let timeout = timeout_response();
    assert_eq!(timeout.status, 408);
    assert_eq!(timeout.body, "Request took too long");
    let internal = internal_error_response(&"x".to_string());
    assert_eq!(internal.status, 500);
    assert_eq!(internal.body, "Unhandled internal error: x");
    let missing = not_found_response();
    assert_eq!(missing.status, 404);
    assert_eq!(missing.body, "");
}

#[test]
fn simultaneous_requests_are_independent() {
    let batch = vec![
        normal_request(2, 1),
        normal_request(1, 2),
        wasm_request(1, 9, None),
        wasm_request(5, 1, Some(SandboxError { description: "trap".to_string() })),
        wasm_request(5, 1, None),
    ];
    let responses = respond_all(&batch);
    assert_eq!(responses.len(), 5);
    assert_eq!(responses[0].status, 200);
    assert_eq!(responses[1].status, 408);
    assert_eq!(responses[2].status, 408);
    assert_eq!(responses[3].status, 500);
    assert_eq!(responses[4].status, 200);

    // One request's timeout or failure leaves another's response as it
    // would be alone.
    let alone = respond(&normal_request(2, 1));
    assert_eq!(responses[0].status, alone.status);
    assert_eq!(responses[0].body, alone.body);
}
