//! The connection handler's decisions, as pure functions.
//!
//! The handler reads one request line from a byte stream, matches it against
//! a small fixed set of routes, reads the chosen resource, and writes back a
//! framed response. Reading and writing are the caller's I/O; what is
//! verified here is everything in between: which route a line selects, which
//! status line and resource belong to it, and the exact bytes of the framed
//! response, including its deliberately non-standard separators.

use vstd::prelude::*;
use vstd::string::StringSliceAdditionalSpecFns;

verus! {

/// The routes the handler distinguishes.
#[derive(Debug, PartialEq, Eq, Clone, Copy)]
pub enum Route {
    /// The root resource, served immediately.
    Root,
    /// The root resource, served after an artificial delay.
    Sleep,
    /// Any other request line.
    NotFound,
}

/// How many seconds the delayed route sleeps before responding.
pub const SLEEP_SECS: u64 = 5;

/// The route a request line selects: the two recognised lines are matched
/// literally, anything else falls through to the not-found route.
pub open spec fn spec_route(line: Seq<char>) -> Route {
    if line == "GET / HTTP/1.1"@ {
        Route::Root
    } else if line == "GET /sleep HTTP/1.1"@ {
        Route::Sleep
    } else {
        Route::NotFound
    }
}

/// The status line served for a route.
pub open spec fn spec_status(r: Route) -> Seq<char> {
    match r {
        Route::Root => "HTTP/1.1 200 OK"@,
        Route::Sleep => "HTTP/1.1 200 OK"@,
        Route::NotFound => "HTTP/1.1 404 NOT FOUND"@,
    }
}

/// The name of the resource file served for a route.
pub open spec fn spec_resource(r: Route) -> Seq<char> {
    match r {
        Route::Root => "hello.html"@,
        Route::Sleep => "hello.html"@,
        Route::NotFound => "404.html"@,
    }
}

/// Matches one request line against the fixed route table.
pub fn route(line: &str) -> (r: Route)
    ensures
        r == spec_route(line@),
{
    let l: String = line.to_owned();
    if l == "GET / HTTP/1.1".to_owned() {
        Route::Root
    } else if l == "GET /sleep HTTP/1.1".to_owned() {
        Route::Sleep
    } else {
        Route::NotFound
    }
}

/// The status line for a route, as served.
pub fn status_line(r: Route) -> (s: &'static str)
    ensures
        s@ == spec_status(r),
{
    match r {
        Route::Root => "HTTP/1.1 200 OK",
        Route::Sleep => "HTTP/1.1 200 OK",
        Route::NotFound => "HTTP/1.1 404 NOT FOUND",
    }
}

/// The resource file a route serves.
pub fn resource_name(r: Route) -> (s: &'static str)
    ensures
        s@ == spec_resource(r),
{
    match r {
        Route::Root => "hello.html",
        Route::Sleep => "hello.html",
        Route::NotFound => "404.html",
    }
}

/// Whether a route blocks the handling thread for `SLEEP_SECS` before
/// responding.
pub fn needs_delay(r: Route) -> (b: bool)
    ensures
        b == (r is Sleep),
{
    matches!(r, Route::Sleep)
}

/// The decimal digits of `n`, most significant first, as ASCII bytes.
pub open spec fn spec_decimal(n: nat) -> Seq<u8>
    decreases n,
{
    if n < 10 {
        seq![(48 + n) as u8]
    } else {
        spec_decimal(n / 10).push((48 + n % 10) as u8)
    }
}

/// Renders `n` in decimal, most significant digit first.
pub fn decimal_digits(n: usize) -> (v: Vec<u8>)
    ensures
        v@ == spec_decimal(n as nat),
    decreases n,
{
    if n < 10 {
        let mut v: Vec<u8> = Vec::new();
        v.push(48 + (n as u8));
        v
    } else {
        let mut v = decimal_digits(n / 10);
        v.push(48 + ((n % 10) as u8));
        v
    }
}

/// The exact bytes of a framed response: the status line, a bare carriage
/// return (deliberately in place of the standard header terminator), the
/// content-length header counting the body's exact byte length, the literal
/// blank-line separator, then the body.
pub open spec fn spec_response(status: Seq<u8>, body: Seq<u8>) -> Seq<u8> {
    status + seq![13u8] + "Content-Length: ".spec_bytes() + spec_decimal(body.len()) + seq![
        13u8,
        10u8,
        13u8,
        10u8,
    ] + body
}

/// Frames a response around a status line and a body, preserving the
/// handler's non-standard separators byte for byte.
pub fn render_response(status: &str, body: &Vec<u8>) -> (r: Vec<u8>)
    ensures
        r@ == spec_response(status.spec_bytes(), body@),
{
    let mut r: Vec<u8> = Vec::new();
    r.extend_from_slice(status.as_bytes());
    r.push(13);
    r.extend_from_slice("Content-Length: ".as_bytes());
    let mut digits = decimal_digits(body.len());
    r.append(&mut digits);
    r.push(13);
    r.push(10);
    r.push(13);
    r.push(10);
    r.extend_from_slice(body.as_slice());
    proof {
        assert(r@ =~= spec_response(status.spec_bytes(), body@));
    }
    r
}

} // verus!
