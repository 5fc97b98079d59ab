//! Plain-data model of the HTTP exchanges the library asks for.
//!
//! The library never performs I/O itself: each operation builds an
//! `HttpRequest` describing what to send, and interprets the
//! `HttpResponse` the embedder hands back.

use vstd::prelude::*;
use crate::strutil;
use crate::strutil::seqs_eq_ci;

verus! {

/// An HTTP method the registry protocol uses.
#[derive(Debug, Clone, Copy, PartialEq, Eq, Structural)]
pub enum Method {
    Get,
    Head,
}

/// A request the library asks its embedder to perform.
#[derive(Debug, Clone, PartialEq, Eq)]
pub struct HttpRequest {
    pub method: Method,
    pub url: String,
    pub headers: Vec<(String, String)>,
}

/// A response handed back by the embedder.
#[derive(Debug, Clone, PartialEq, Eq)]
pub struct HttpResponse {
    pub status: u16,
    pub headers: Vec<(String, String)>,
    pub body: Vec<u8>,
}

/// The value of the first header whose name equals `name` up to ASCII case.
pub open spec fn spec_header(h: Seq<(String, String)>, name: Seq<char>) -> Option<Seq<char>>
    decreases h.len(),
{
    if h.len() == 0 {
        None
    } else if seqs_eq_ci(h[0].0@, name) {
        Some(h[0].1@)
    } else {
        spec_header(h.drop_first(), name)
    }
}

/// Look a header up by name, case-insensitively.
#[verifier::loop_isolation(false)]
pub fn header_value(h: &Vec<(String, String)>, name: &str) -> (r: Option<String>)
    ensures
        match r {
            Some(v) => spec_header(h@, name@) == Some(v@),
            None => spec_header(h@, name@) is None,
        },
{
    let mut i: usize = 0;
    proof {
        assert(h@.skip(0) =~= h@);
    }
    while i < h.len()
        invariant
            i <= h@.len(),
            spec_header(h@, name@) == spec_header(h@.skip(i as int), name@),
        decreases h@.len() - i,
    {
        proof {
            assert(h@.skip(i as int)[0] == h@[i as int]);
            assert(h@.skip(i as int).drop_first() =~= h@.skip(i + 1));
        }
        if strutil::str_eq_ci(h[i].0.as_str(), name) {
            return Some(h[i].1.clone());
        }
        i = i + 1;
    }
    None
}

/// 2xx.
pub open spec fn is_success(status: u16) -> bool {
    200 <= status < 300
}

/// 4xx.
pub open spec fn is_client_error(status: u16) -> bool {
    400 <= status < 500
}

/// 5xx.
pub open spec fn is_server_error(status: u16) -> bool {
    500 <= status < 600
}

} // verus!
