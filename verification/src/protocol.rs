//! The wire-level model both sides share: requests and responses as plain
//! values, the three served paths, and header lookup.

use vstd::prelude::*;
use crate::textutil::str_eq;

verus! {

/// A request as the router sees it: a path, named headers in order, and
/// the raw body bytes.
pub struct HttpRequest {
    pub path: String,
    pub headers: Vec<(String, String)>,
    pub body: Vec<u8>,
}

/// A response as the server produces it: a status code and the raw body
/// bytes.
pub struct HttpResponse {
    pub status: u16,
    pub body: Vec<u8>,
}

/// The operations the server maps paths onto; anything else is `NotFound`.
#[derive(Clone, Copy, PartialEq, Eq, Structural, Debug)]
pub enum Route {
    AddFile,
    GetFiles,
    DownloadFile,
    NotFound,
}

/// The route a path is dispatched to: the three served paths, exactly, and
/// `NotFound` for every other path.
pub open spec fn route_spec(path: Seq<char>) -> Route {
    if path == "/addfile"@ {
        Route::AddFile
    } else if path == "/getfiles"@ {
        Route::GetFiles
    } else if path == "/downloadfile"@ {
        Route::DownloadFile
    } else {
        Route::NotFound
    }
}

/// Dispatches a request path to its route.
pub fn route_of(path: &str) -> (r: Route)
    ensures
        r == route_spec(path@),
{
    if str_eq(path, "/addfile") {
        Route::AddFile
    } else if str_eq(path, "/getfiles") {
        Route::GetFiles
    } else if str_eq(path, "/downloadfile") {
        Route::DownloadFile
    } else {
        Route::NotFound
    }
}

/// The value of the first header named `name`, if any.
pub open spec fn header_spec(headers: Seq<(String, String)>, name: Seq<char>) -> Option<Seq<char>>
    decreases headers.len(),
{
    if headers.len() == 0 {
        Option::None
    } else if headers[0].0@ == name {
        Option::Some(headers[0].1@)
    } else {
        header_spec(headers.drop_first(), name)
    }
}

/// Looks the first header named `name` up.
pub fn header_value<'a>(headers: &'a Vec<(String, String)>, name: &str) -> (r: Option<&'a String>)
    ensures
        match r {
            Option::Some(v) => header_spec(headers@, name@) == Option::Some(v@),
            Option::None => header_spec(headers@, name@) is None,
        },
{
    let n = headers.len();
    let mut i: usize = 0;
    proof {
        assert(headers@.skip(0) =~= headers@);
    }
    while i < n
        invariant
            i <= n,
            n == headers@.len(),
            header_spec(headers@, name@) == header_spec(headers@.skip(i as int), name@),
        decreases n - i,
    {
        proof {
            assert(headers@.skip(i as int)[0] == headers@[i as int]);
            assert(headers@.skip(i as int).drop_first() =~= headers@.skip(i as int + 1));
        }
        if str_eq(headers[i].0.as_str(), name) {
            return Option::Some(&headers[i].1);
        }
        i = i + 1;
    }
    proof {
        assert(headers@.skip(n as int).len() == 0);
    }
    Option::None
}

} // verus!
