//! Client for the Docker Registry API v2.
//!
//! A `Client` holds the plain state of a registry session: endpoint,
//! credentials, user agent and cached bearer token.  Each operation
//! builds an `HttpRequest` for the embedder to send and interprets the
//! `HttpResponse` that comes back.

use vstd::prelude::*;
use crate::errors::Error;
use crate::http::{HttpRequest, HttpResponse, Method, spec_header};
use crate::http;
use crate::strutil;

pub mod auth;
pub mod blobs;
pub mod catalog;
pub mod config;
pub mod content_digest;
pub mod manifest;
pub mod tags;

pub use config::Config;
pub use content_digest::ContentDigest;

verus! {

/// A client for one registry endpoint.
#[derive(Debug, Clone, PartialEq, Eq)]
pub struct Client {
    /// Scheme and host, without a trailing slash.
    pub base_url: String,
    /// Username and password; either may be empty.
    pub credentials: Option<(String, String)>,
    /// Host only, used as the auth service identifier.
    pub index: String,
    /// Value sent as `User-Agent`, when set.
    pub user_agent: Option<String>,
    /// Bearer token, set after a successful exchange.
    pub token: Option<String>,
}

/// The headers of `h` include `user-agent` with the exact value `ua`.
pub open spec fn has_user_agent(h: Seq<(String, String)>, ua: Seq<char>) -> bool {
    exists|i: int| 0 <= i < h.len() && h[i].0@ == "user-agent"@ && h[i].1@ == ua
}

/// The headers of `h` include `authorization` with the exact value `v`.
pub open spec fn has_authorization(h: Seq<(String, String)>, v: Seq<char>) -> bool {
    exists|i: int| 0 <= i < h.len() && h[i].0@ == "authorization"@ && h[i].1@ == v
}

/// The complete header list injected on every plain request: the
/// bearer token when one is cached, then the configured user agent,
/// nothing else.
pub open spec fn spec_base_headers(c: Client, h: Seq<(String, String)>) -> bool {
    &&& h.len() == (if c.token is Some {
        1int
    } else {
        0int
    }) + (if c.user_agent is Some {
        1int
    } else {
        0int
    })
    &&& (c.token matches Some(t) ==> h[0].0@ == "authorization"@ && h[0].1@ == "Bearer "@ + t@)
    &&& (c.token is None ==> (c.user_agent matches Some(u) ==> h[0].0@ == "user-agent"@ && h[0].1@
        == u@))
    &&& (c.token is Some ==> (c.user_agent matches Some(u) ==> h[1].0@ == "user-agent"@ && h[1].1@
        == u@))
}

/// The response proves v2 support: expected status and the exact
/// `Docker-Distribution-API-Version` header value.
pub open spec fn spec_v2_supported(resp: HttpResponse) -> bool {
    (resp.status == 200 || resp.status == 401) && spec_header(
        resp.headers@,
        "docker-distribution-api-version"@,
    ) == Some("registry/2.0"@)
}

impl Client {
    /// Begin building a client.
    pub fn configure() -> (r: Config)
        ensures
            r.index@ == "registry-1.docker.io"@,
            r.insecure_registry == false,
            r.user_agent matches Some(u) && u@ == "camallo-dkregistry/0.0"@,
            r.username is None,
            r.password is None,
    {
        Config::default()
    }

    /// The headers injected on every request: bearer token when one is
    /// cached, then the configured user agent.
    pub fn base_headers(&self) -> (r: Vec<(String, String)>)
        ensures
            spec_base_headers(*self, r@),
            self.user_agent matches Some(u) ==> has_user_agent(r@, u@),
            self.token matches Some(t) ==> has_authorization(r@, "Bearer "@ + t@),
    {
        let mut r: Vec<(String, String)> = Vec::new();
        if let Some(t) = &self.token {
            let v = String::from_str("Bearer ").concat(t.as_str());
            r.push((String::from_str("authorization"), v));
        }
        if let Some(u) = &self.user_agent {
            r.push((String::from_str("user-agent"), u.clone()));
        }
        proof {
            if self.token is Some {
                let t = self.token->0;
                assert(has_authorization(r@, "Bearer "@ + t@)) by {
                    assert(r@[0].0@ == "authorization"@ && r@[0].1@ == "Bearer "@ + t@);
                }
            }
            if self.user_agent is Some {
                let u = self.user_agent->0;
                if self.token is Some {
                    assert(has_user_agent(r@, u@)) by {
                        assert(r@[1].0@ == "user-agent"@ && r@[1].1@ == u@);
                    }
                } else {
                    assert(has_user_agent(r@, u@)) by {
                        assert(r@[0].0@ == "user-agent"@ && r@[0].1@ == u@);
                    }
                }
            }
        }
        r
    }

    /// The request of the `/v2/` probe.
    pub fn v2_request(&self) -> (r: HttpRequest)
        ensures
            r.method == Method::Get,
            r.url@ == self.base_url@ + "/v2/"@,
            spec_base_headers(*self, r.headers@),
            self.user_agent matches Some(u) ==> has_user_agent(r.headers@, u@),
            self.token matches Some(t) ==> has_authorization(r.headers@, "Bearer "@ + t@),
    {
        HttpRequest {
            method: Method::Get,
            url: self.base_url.clone().concat("/v2/"),
            headers: self.base_headers(),
        }
    }

    /// Check whether the probe response proves v2 support: `200` or
    /// `401` with the exact API version header.
    pub fn is_v2_supported(&self, resp: &HttpResponse) -> (r: bool)
        ensures
            r == spec_v2_supported(*resp),
    {
        if resp.status != 200 && resp.status != 401 {
            return false;
        }
        match http::header_value(&resp.headers, "docker-distribution-api-version") {
            Some(v) => strutil::str_eq(v.as_str(), "registry/2.0"),
            None => false,
        }
    }

    /// Fail unless the probe response proves v2 support.
    pub fn ensure_v2_registry(self, resp: &HttpResponse) -> (r: Result<Client, Error>)
        ensures
            match r {
                Ok(c) => spec_v2_supported(*resp) && c == self,
                Err(e) => !spec_v2_supported(*resp) && e == Error::UnsupportedV2,
            },
    {
        if self.is_v2_supported(resp) {
            Ok(self)
        } else {
            Err(Error::UnsupportedV2)
        }
    }
}

} // verus!
