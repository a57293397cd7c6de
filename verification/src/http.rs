//! The demo server's single-line HTTP rules: which page a request line
//! selects, how long to dally before serving it, and the exact bytes of
//! the response envelope around a page's contents.
//!
//! Reading the request line, reading the page file and writing the socket
//! are the caller's outside work; these functions only decide and format.

use vstd::prelude::*;

use crate::decimal::{dec_digits, usize_to_decimal};
use vstd::utf8::encode_utf8;

verus! {

/// Routing decision for one request line.
#[derive(Clone, Copy, PartialEq, Eq, Structural, Debug)]
pub enum Route {
    /// Serve the main page.
    Root,
    /// Pause, then serve the main page.
    SleepThenRoot,
    /// Serve the not-found page.
    NotFound,
}

/// Which route a request line selects.
pub open spec fn spec_route(line: Seq<char>) -> Route {
    if line == "GET / HTTP/1.1"@ {
        Route::Root
    } else if line == "GET /sleep HTTP/1.1"@ {
        Route::SleepThenRoot
    } else {
        Route::NotFound
    }
}

/// The path of the page a route serves.
pub open spec fn spec_target(r: Route) -> Seq<char> {
    match r {
        Route::Root => "html/main.html"@,
        Route::SleepThenRoot => "html/main.html"@,
        Route::NotFound => "html/404.html"@,
    }
}

/// The status line a route answers with.
pub open spec fn spec_status(r: Route) -> Seq<char> {
    match r {
        Route::Root => "HTTP/1.1 200 OK"@,
        Route::SleepThenRoot => "HTTP/1.1 200 OK"@,
        Route::NotFound => "HTTP/1.1 404 NOT FOUND"@,
    }
}

/// How many seconds a route pauses before serving its page.
pub open spec fn spec_delay(r: Route) -> u64 {
    match r {
        Route::SleepThenRoot => 5,
        _ => 0,
    }
}

/// The full response for a status line and a page body: the status, a
/// Content-Length header counting the body's bytes, a blank line, then
/// the body.
pub open spec fn spec_response(status: Seq<char>, body: Seq<char>) -> Seq<char> {
    status + "\r\nContent-Length: "@ + dec_digits(encode_utf8(body).len()) + "\r\n\r\n"@ + body
}

/// Character-for-character equality of two strings.
pub fn str_eq(a: &str, b: &str) -> (r: bool)
    ensures
        r == (a@ == b@),
{
    let n = a.unicode_len();
    if n != b.unicode_len() {
        return false;
    }
    let mut i: usize = 0;
    while i < n
        invariant
            n == a@.len(),
            n == b@.len(),
            i <= n,
            forall|j: int| 0 <= j < i ==> a@[j] == b@[j],
        decreases n - i,
    {
        if a.get_char(i) != b.get_char(i) {
            return false;
        }
        i += 1;
    }
    proof {
        assert(a@ =~= b@);
    }
    true
}

/// Route a request line.
pub fn route(line: &str) -> (r: Route)
    ensures
        r == spec_route(line@),
{
    if str_eq(line, "GET / HTTP/1.1") {
        Route::Root
    } else if str_eq(line, "GET /sleep HTTP/1.1") {
        Route::SleepThenRoot
    } else {
        Route::NotFound
    }
}

/// The path of the page a route serves.
pub fn target_path(r: Route) -> (p: &'static str)
    ensures
        p@ == spec_target(r),
{
    match r {
        Route::Root => "html/main.html",
        Route::SleepThenRoot => "html/main.html",
        Route::NotFound => "html/404.html",
    }
}

/// The status line a route answers with.
pub fn status_line(r: Route) -> (s: &'static str)
    ensures
        s@ == spec_status(r),
{
    match r {
        Route::Root => "HTTP/1.1 200 OK",
        Route::SleepThenRoot => "HTTP/1.1 200 OK",
        Route::NotFound => "HTTP/1.1 404 NOT FOUND",
    }
}

/// How many seconds to pause before serving a route's page.
pub fn delay_seconds(r: Route) -> (n: u64)
    ensures
        n == spec_delay(r),
{
    match r {
        Route::SleepThenRoot => 5,
        Route::Root => 0,
        Route::NotFound => 0,
    }
}

/// Wrap a page body in its response envelope. The header counts the
/// body's bytes, which on any machine-held string fit in a word.
pub fn format_response(status: &str, body: &str) -> (r: String)
    requires
        encode_utf8(body@).len() <= usize::MAX,
    ensures
        r@ == spec_response(status@, body@),
{
    let nbytes = body.len();
    let mut out = status.to_owned();
    out.append("\r\nContent-Length: ");
    let digits = usize_to_decimal(nbytes);
    out.append(digits.as_str());
    out.append("\r\n\r\n");
    out.append(body);
    proof {
        assert(out@ =~= spec_response(status@, body@));
    }
    out
}

} // verus!
