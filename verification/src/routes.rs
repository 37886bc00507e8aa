//! The route table: two path patterns, each bound to one handler, fixed at
//! startup. Anything else resolves to the standard not-found response.

use vstd::prelude::*;
use vstd::string::*;

verus! {

/// The request method, as far as routing cares: the two routes are bound
/// to GET only.
#[derive(Clone, Copy, PartialEq, Eq, Debug, Structural)]
pub enum Method {
    Get,
    Other,
}

/// The handler a request resolves to.
#[derive(Clone, Copy, PartialEq, Eq, Debug, Structural)]
pub enum Route {
    /// The delay handler, bound to the normal path.
    Normal,
    /// The sandboxed-invocation handler, bound to the sandbox path.
    Wasm,
    /// No binding matched.
    NotFound,
}

/// Which handler a method/path pair resolves to: GET on the two bound
/// paths reaches its handler; every other request is unmatched.
pub open spec fn dispatch_spec(method: Method, path: Seq<char>) -> Route {
    if method == Method::Get && path == "/normal"@ {
        Route::Normal
    } else if method == Method::Get && path == "/wasm"@ {
        Route::Wasm
    } else {
        Route::NotFound
    }
}

/// Resolves a request to its handler.
pub fn dispatch(method: Method, path: &str) -> (r: Route)
    ensures
        r == dispatch_spec(method, path@),
{
    match method {
        Method::Get => {
            let owned = path.to_owned();
            if owned == String::from_str("/normal") {
                Route::Normal
            } else if owned == String::from_str("/wasm") {
                Route::Wasm
            } else {
                Route::NotFound
            }
        },
        Method::Other => Route::NotFound,
    }
}

} // verus!
