//! Request routing: which handler a method and path select.
//!
//! The serving, the bodies and the transport live outside this library;
//! what is verified here is the decision itself, as a function from the
//! request line to the route taken.

use vstd::prelude::*;
use vstd::string::StrSliceExecFns;

verus! {

/// The routes a request can be dispatched to.
#[derive(PartialEq, Eq, Structural, Debug)]
pub enum Route {
    /// The greeting page.
    Index,
    /// Echo the request body back.
    Echo,
    /// Stream a canned body chunk by chunk.
    AsyncStream,
    /// Stream rows from the data source.
    Data,
    /// Anything else.
    NotFound,
}

/// Whether two string slices hold the same characters.
fn str_equal(a: &str, b: &str) -> (r: bool)
    ensures
        r == (a@ == b@),
{
    let a_len = a.unicode_len();
    let b_len = b.unicode_len();
    if a_len != b_len {
        proof {
            assert(a@ != b@);
        }
        return false;
    }
    let mut i: usize = 0;
    while i < a_len
        invariant
            i <= a_len,
            a_len == a@.len() == b@.len(),
            forall|k: int| 0 <= k < i ==> a@[k] == b@[k],
        decreases a_len - i,
    {
        if a.get_char(i) != b.get_char(i) {
            return false;
        }
        i = i + 1;
    }
    proof {
        assert(a@ =~= b@);
    }
    true
}

/// The route selected by a request line: only GET requests are served, and
/// only the four known paths; everything else is not found.
pub open spec fn route_of(method: Seq<char>, path: Seq<char>) -> Route {
    if method != "GET"@ {
        Route::NotFound
    } else if path == "/"@ {
        Route::Index
    } else if path == "/echo"@ {
        Route::Echo
    } else if path == "/async"@ {
        Route::AsyncStream
    } else if path == "/data"@ {
        Route::Data
    } else {
        Route::NotFound
    }
}

/// Dispatches a request line to its route.
pub fn route(method: &str, path: &str) -> (r: Route)
    ensures
        r == route_of(method@, path@),
{
    if !str_equal(method, "GET") {
        Route::NotFound
    } else if str_equal(path, "/") {
        Route::Index
    } else if str_equal(path, "/echo") {
        Route::Echo
    } else if str_equal(path, "/async") {
        Route::AsyncStream
    } else if str_equal(path, "/data") {
        Route::Data
    } else {
        Route::NotFound
    }
}

} // verus!
