//! Routing of the requests that the sample web server answers.
use vstd::prelude::*;
use vstd::string::*;

verus! {

/// The request line of the page.
pub const GET_ROOT: &'static str = "GET / HTTP/1.1\r\n";

/// The request line of the deliberately slow page.
pub const GET_SLEEP: &'static str = "GET /sleep HTTP/1.1\r\n";

/// What a request asks for.
#[derive(Clone, Copy, PartialEq, Eq, Debug, Structural)]
pub enum Route {
    /// The page, at once.
    Hello,
    /// The page, after a long pause.
    Slow,
    /// Anything else.
    NotFound,
}

pub open spec fn route_of(request: Seq<char>) -> Route {
    if GET_ROOT@.is_prefix_of(request) {
        Route::Hello
    } else if GET_SLEEP@.is_prefix_of(request) {
        Route::Slow
    } else {
        Route::NotFound
    }
}

/// Whether `s` begins with `p`.
fn starts_with(s: &str, p: &str) -> (r: bool)
    ensures
        r == p@.is_prefix_of(s@),
{
    let n = p.unicode_len();
    if s.unicode_len() < n {
        return false;
    }
    let mut i: usize = 0;
    while i < n
        invariant
            i <= n,
            n == p@.len(),
            n <= s@.len(),
            forall|k: int| 0 <= k < i ==> s@[k] == p@[k],
        decreases n - i,
    {
        if s.get_char(i) != p.get_char(i) {
            return false;
        }
        i = i + 1;
    }
    true
}

/// The route of a request, by its first line.
pub fn route(request: &str) -> (r: Route)
    ensures
        r == route_of(request@),
{
    if starts_with(request, GET_ROOT) {
        Route::Hello
    } else if starts_with(request, GET_SLEEP) {
        Route::Slow
    } else {
        Route::NotFound
    }
}

pub open spec fn status_of(route: Route) -> Seq<char> {
    match route {
        Route::NotFound => "HTTP/1.1 404 NOT FOUND\r\n\r\n"@,
        _ => "HTTP/1.1 200 OK\r\n\r\n"@,
    }
}

pub open spec fn page_of(route: Route) -> Seq<char> {
    match route {
        Route::NotFound => "404.html"@,
        _ => "hello.html"@,
    }
}

/// The status line, with the blank line that ends the head, for a route.
pub fn status_line(route: Route) -> (r: &'static str)
    ensures
        r@ == status_of(route),
{
    match route {
        Route::NotFound => "HTTP/1.1 404 NOT FOUND\r\n\r\n",
        _ => "HTTP/1.1 200 OK\r\n\r\n",
    }
}

/// The name of the file whose text answers a route.
pub fn page(route: Route) -> (r: &'static str)
    ensures
        r@ == page_of(route),
{
    match route {
        Route::NotFound => "404.html",
        _ => "hello.html",
    }
}

/// The whole response: the status line, then the body.
pub fn response(route: Route, body: &str) -> (r: String)
    ensures
        r@ == status_of(route) + body@,
{
    let mut r = String::from_str(status_line(route));
    r.append(body);
    r
}

} // verus!
