//! Paginated tag listing: a stream of tag pages chained by `Link:
//! rel="next"` headers.
//!
//! The embedder drives the stream: it sends `tags_request`, interprets
//! the answer with `get_tags_page`, and while the page names a `next`
//! URL it follows with `tags_next_request`.  The stream terminates
//! exactly when a page carries no next link.

use vstd::prelude::*;
use crate::errors::{Error, is_status_error, status_error};
use crate::http::{HttpRequest, HttpResponse, Method, is_success, spec_header};
use crate::http;
use crate::json;
use crate::strutil;
use crate::strutil::{has_prefix, occurs};
use crate::v2::Client;

verus! {

/// One page of a tag stream: the tags in server order, and the resolved
/// URL of the next page when the response linked one.
#[derive(Debug, Clone, PartialEq, Eq)]
pub struct TagsPage {
    pub tags: Vec<String>,
    pub next: Option<String>,
}

/// The URL a `Link` header value names as the next page: an
/// angle-bracketed URL followed by a `rel="next"` parameter.
pub open spec fn spec_link_next(v: Seq<char>) -> Option<Seq<char>> {
    match v.index_of_first('>') {
        Option::Some(i) => {
            if v.len() >= 1 && v[0] == '<' && 1 <= i && occurs(v.skip(i + 1), "rel=\"next\""@) {
                Option::Some(v.subrange(1, i))
            } else {
                Option::None
            }
        },
        Option::None => Option::None,
    }
}

/// A URL resolved against the base: one starting with `/` is appended
/// to the base, any other is kept as given.
pub open spec fn spec_resolve(base: Seq<char>, u: Seq<char>) -> Seq<char> {
    if u.len() >= 1 && u[0] == '/' {
        base + u
    } else {
        u
    }
}

/// Extract the next-page URL out of a `Link` header value.
pub fn link_next(v: &str) -> (r: Option<String>)
    ensures
        match r {
            Some(u) => spec_link_next(v@) == Option::Some(u@),
            None => spec_link_next(v@) is None,
        },
{
    let n = v.unicode_len();
    proof {
        v@.index_of_first_ensures('>');
    }
    match strutil::find_char(v, 0, '>') {
        None => {
            proof {
                match v@.index_of_first('>') {
                    Option::Some(j) => {
                        assert(v@[j] == '>');
                    },
                    Option::None => {},
                }
            }
            None
        },
        Some(i) => {
            proof {
                match v@.index_of_first('>') {
                    Option::Some(j) => {
                        if j < i {
                            assert(v@[j] == '>');
                        }
                        if i < j {
                            assert(v@[i as int] == '>');
                        }
                        assert(j == i);
                    },
                    Option::None => {
                        assert(v@[i as int] == '>');
                    },
                }
            }
            if v.get_char(0) != '<' || i < 1 {
                return None;
            }
            let url = v.substring_char(1, i);
            let rest = v.substring_char(i + 1, n);
            proof {
                assert(url@ =~= v@.subrange(1, i as int));
                assert(rest@ =~= v@.skip(i + 1));
            }
            if strutil::contains_str(rest, "rel=\"next\"") {
                Some(url.to_owned())
            } else {
                None
            }
        },
    }
}

/// Resolve a next-page URL against a base URL.
pub fn resolve_url(base: &str, u: &str) -> (r: String)
    ensures
        r@ == spec_resolve(base@, u@),
{
    if u.unicode_len() >= 1 && u.get_char(0) == '/' {
        base.to_owned().concat(u)
    } else {
        u.to_owned()
    }
}

/// The response carries `Content-Type: application/json`.
pub open spec fn spec_json_content_type(h: Seq<(String, String)>) -> bool {
    match spec_header(h, "content-type"@) {
        Option::Some(ct) => has_prefix(ct, "application/json"@),
        Option::None => false,
    }
}

/// What `next` a page interpreted against these headers must carry:
/// exactly the resolved link when one is named, nothing otherwise.
pub open spec fn spec_page_next(
    headers: Seq<(String, String)>,
    base: Seq<char>,
    next: Option<String>,
) -> bool {
    match spec_header(headers, "link"@) {
        Option::Some(lv) => match spec_link_next(lv) {
            Option::Some(u) => next matches Some(nu) && nu@ == spec_resolve(base, u),
            Option::None => next is None,
        },
        Option::None => next is None,
    }
}

impl Client {
    /// The request of the first tag page:
    /// `GET /v2/{name}/tags/list`, with `?n=` when paginated.
    pub fn tags_request(&self, name: &str, paginate: Option<u32>) -> (r: HttpRequest)
        ensures
            r.method == Method::Get,
            match paginate {
                Some(n) => r.url@ == self.base_url@ + "/v2/"@ + name@ + "/tags/list?n="@
                    + strutil::spec_dec(n as nat),
                None => r.url@ == self.base_url@ + "/v2/"@ + name@ + "/tags/list"@,
            },
            crate::v2::spec_base_headers(*self, r.headers@),
            self.user_agent matches Some(u) ==> crate::v2::has_user_agent(r.headers@, u@),
            self.token matches Some(t) ==> crate::v2::has_authorization(r.headers@, "Bearer "@ + t@),
    {
        let url = match paginate {
            Some(n) => {
                let u = self.base_url.clone().concat("/v2/").concat(name).concat("/tags/list?n=");
                u.concat(strutil::u32_to_dec(n).as_str())
            },
            None => self.base_url.clone().concat("/v2/").concat(name).concat("/tags/list"),
        };
        HttpRequest { method: Method::Get, url, headers: self.base_headers() }
    }

    /// The request that follows a page's `next` URL.
    pub fn tags_next_request(&self, url: &str) -> (r: HttpRequest)
        ensures
            r.method == Method::Get,
            r.url@ == url@,
            crate::v2::spec_base_headers(*self, r.headers@),
            self.user_agent matches Some(u) ==> crate::v2::has_user_agent(r.headers@, u@),
            self.token matches Some(t) ==> crate::v2::has_authorization(r.headers@, "Bearer "@ + t@),
    {
        HttpRequest { method: Method::Get, url: url.to_owned(), headers: self.base_headers() }
    }

    /// Interpret one response of the tag stream.
    ///
    /// `404` means the repository has no tag list; any other status
    /// outside 2xx is its status error.  A 2xx answer must carry an
    /// `application/json` content type and a JSON body with a `tags`
    /// array of strings; the page's `next` is exactly the resolved
    /// `Link: rel="next"` URL when the response names one.
    #[verifier::loop_isolation(false)]
    pub fn get_tags_page(&self, resp: &HttpResponse) -> (r: Result<TagsPage, Error>)
        ensures
            resp.status == 404 <==> r == Err::<TagsPage, Error>(Error::NotFound),
            !is_success(resp.status) && resp.status != 404 ==> (r matches Err(e) && is_status_error(
                e,
                resp.status,
                resp.body@,
            )),
            is_success(resp.status) && !spec_json_content_type(resp.headers@) ==> (r matches Err(e)
                && e is MalformedResponse),
            is_success(resp.status) && spec_json_content_type(resp.headers@) ==> (match json::tags_of(
                resp.body@,
            ) {
                Option::Some(ts) => r matches Ok(page) && strutil::strs_view(page.tags@) == ts
                    && spec_page_next(resp.headers@, self.base_url@, page.next),
                Option::None => r matches Err(e) && e is MalformedResponse,
            }),
            r matches Ok(page) ==> is_success(resp.status) && spec_json_content_type(resp.headers@)
                && spec_page_next(resp.headers@, self.base_url@, page.next),
    {
        if resp.status == 404 {
            return Err(Error::NotFound);
        }
        if !(200 <= resp.status && resp.status < 300) {
            return Err(status_error(resp.status, resp.body.clone()));
        }
        let ct_ok = match http::header_value(&resp.headers, "content-type") {
            Some(ct) => strutil::starts_with(ct.as_str(), "application/json"),
            None => false,
        };
        if !ct_ok {
            return Err(
                Error::MalformedResponse(String::from_str("tag list has no JSON content type")),
            );
        }
        let tags = match json::parse_tags_body(resp.body.as_slice()) {
            Some(t) => t,
            None => {
                return Err(Error::MalformedResponse(String::from_str("tag list holds no tags")));
            },
        };
        let next = match http::header_value(&resp.headers, "link") {
            Some(lv) => match link_next(lv.as_str()) {
                Some(u) => Some(resolve_url(self.base_url.as_str(), u.as_str())),
                None => None,
            },
            None => None,
        };
        Ok(TagsPage { tags, next })
    }
}

/// Order preservation of the stream: appending one more page to a
/// streamed prefix appends exactly that page's tags, in their order,
/// after everything already delivered.
pub proof fn lemma_stream_order(pages: Seq<Seq<Seq<char>>>, p: Seq<Seq<char>>)
    ensures
        (pages.push(p)).flatten() == pages.flatten() + p,
{
    pages.lemma_flatten_push(p);
}

/// How many tags the pages before page `i` hold together.
pub open spec fn stream_prefix_len(pages: Seq<Seq<Seq<char>>>, i: int) -> int
    decreases i,
{
    if i <= 0 {
        0
    } else {
        pages[0].len() as int + stream_prefix_len(pages.drop_first(), i - 1)
    }
}

/// Order preservation, tag by tag: in the assembled stream, the tag at
/// offset `k` of page `i` stands exactly after every tag of the
/// earlier pages.
pub proof fn lemma_stream_index(pages: Seq<Seq<Seq<char>>>, i: int, k: int)
    requires
        0 <= i < pages.len(),
        0 <= k < pages[i].len(),
    ensures
        0 <= stream_prefix_len(pages, i) + k < pages.flatten().len(),
        pages.flatten()[stream_prefix_len(pages, i) + k] == pages[i][k],
    decreases i,
{
    assert(pages.flatten() =~= pages.first() + pages.drop_first().flatten());
    if i == 0 {
    } else {
        lemma_stream_index(pages.drop_first(), i - 1, k);
        assert(pages.drop_first()[i - 1] == pages[i]);
    }
}

} // verus!
