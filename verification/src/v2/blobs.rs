//! Content-addressed blob retrieval with digest verification.

use vstd::prelude::*;
use crate::errors::{Error, is_status_error, status_error};
use crate::http::{HttpRequest, Method, HttpResponse, is_success};
use crate::v2::Client;
use crate::v2::content_digest::{ContentDigest, spec_parse_digest, spec_computed_hex,
    lemma_digest_round_trip};

verus! {

impl Client {
    /// The request of `HEAD /v2/{name}/blobs/{digest}`.
    pub fn has_blob_request(&self, name: &str, digest: &str) -> (r: HttpRequest)
        ensures
            r.method == Method::Head,
            r.url@ == self.base_url@ + "/v2/"@ + name@ + "/blobs/"@ + digest@,
            crate::v2::spec_base_headers(*self, r.headers@),
            self.user_agent matches Some(u) ==> crate::v2::has_user_agent(r.headers@, u@),
            self.token matches Some(t) ==> crate::v2::has_authorization(r.headers@, "Bearer "@ + t@),
    {
        let url = self.base_url.clone().concat("/v2/").concat(name).concat("/blobs/").concat(
            digest,
        );
        HttpRequest { method: Method::Head, url, headers: self.base_headers() }
    }

    /// Whether a blob exists: `200` on the existence probe.
    pub fn has_blob(&self, resp: &HttpResponse) -> (r: bool)
        ensures
            r == (resp.status == 200),
    {
        resp.status == 200
    }

    /// The request of `GET /v2/{name}/blobs/{digest}`, after checking
    /// that the digest string parses.
    pub fn get_blob_request(&self, name: &str, digest: &str) -> (r: Result<
        (ContentDigest, HttpRequest),
        Error,
    >)
        ensures
            match r {
                Ok((cd, req)) => {
                    &&& cd.wf()
                    &&& spec_parse_digest(digest@) == Some((cd.algorithm, cd.hex@))
                    &&& req.method == Method::Get
                    &&& req.url@ == self.base_url@ + "/v2/"@ + name@ + "/blobs/"@ + digest@
                    &&& crate::v2::spec_base_headers(*self, req.headers@)
                    &&& (self.user_agent matches Some(u) ==> crate::v2::has_user_agent(
                        req.headers@,
                        u@,
                    ))
                },
                Err(e) => spec_parse_digest(digest@) is None && e is MalformedResponse,
            },
    {
        let cd = match ContentDigest::try_new(digest) {
            Ok(cd) => cd,
            Err(e) => {
                return Err(e);
            },
        };
        let printed = cd.to_string();
        proof {
            lemma_digest_round_trip(digest@, cd.algorithm, cd.hex@);
            assert(printed@ == digest@);
        }
        let url = self.base_url.clone().concat("/v2/").concat(name).concat("/blobs/").concat(
            printed.as_str(),
        );
        let req = HttpRequest { method: Method::Get, url, headers: self.base_headers() };
        Ok((cd, req))
    }

    /// Accept the body of a blob response only after verifying its
    /// digest: a success body that hashes to the expected digest is
    /// returned as-is, anything else is an error.
    pub fn get_blob(&self, digest: &ContentDigest, resp: &HttpResponse) -> (r: Result<
        Vec<u8>,
        Error,
    >)
        ensures
            match r {
                Ok(b) => is_success(resp.status) && digest.matches(resp.body@) && b@ == resp.body@,
                Err(e) => {
                    if is_success(resp.status) {
                        &&& !digest.matches(resp.body@)
                        &&& e matches Error::DigestMismatch(exp, act)
                        &&& exp@ == digest.hex@
                        &&& act@ == spec_computed_hex(digest.algorithm, resp.body@)
                    } else {
                        is_status_error(e, resp.status, resp.body@)
                    }
                },
            },
    {
        if !(200 <= resp.status && resp.status < 300) {
            return Err(status_error(resp.status, resp.body.clone()));
        }
        match digest.try_verify(resp.body.as_slice()) {
            Ok(()) => Ok(resp.body.clone()),
            Err(e) => Err(e),
        }
    }
}

} // verus!
