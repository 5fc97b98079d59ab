//! Repository catalog listing.

use vstd::prelude::*;
use crate::errors::{Error, is_status_error, status_error};
use crate::http::{HttpRequest, Method, HttpResponse, is_success};
use crate::json;
use crate::strutil;
use crate::v2::Client;

verus! {

impl Client {
    /// The request of `GET /v2/_catalog`, optionally paginated.
    pub fn catalog_request(&self, paginate: Option<u32>) -> (r: HttpRequest)
        ensures
            r.method == Method::Get,
            match paginate {
                Some(n) => r.url@ == self.base_url@ + "/v2/_catalog?n="@ + strutil::spec_dec(
                    n as nat,
                ),
                None => r.url@ == self.base_url@ + "/v2/_catalog"@,
            },
            crate::v2::spec_base_headers(*self, r.headers@),
            self.user_agent matches Some(u) ==> crate::v2::has_user_agent(r.headers@, u@),
            self.token matches Some(t) ==> crate::v2::has_authorization(r.headers@, "Bearer "@ + t@),
    {
        let url = match paginate {
            Some(n) => {
                let u = self.base_url.clone().concat("/v2/_catalog?n=");
                u.concat(strutil::u32_to_dec(n).as_str())
            },
            None => self.base_url.clone().concat("/v2/_catalog"),
        };
        HttpRequest { method: Method::Get, url, headers: self.base_headers() }
    }

    /// Read the repository names out of a catalog response.
    ///
    /// A response outside 2xx maps to its status error; a 2xx body must
    /// hold a `repositories` array of strings, which is returned
    /// complete and in order.
    pub fn get_catalog(&self, resp: &HttpResponse) -> (r: Result<Vec<String>, Error>)
        ensures
            !is_success(resp.status) ==> (r matches Err(e) && is_status_error(
                e,
                resp.status,
                resp.body@,
            )),
            r is Ok ==> is_success(resp.status),
            is_success(resp.status) ==> (match json::catalog_of(resp.body@) {
                Option::Some(rs) => r matches Ok(v) && strutil::strs_view(v@) == rs,
                Option::None => r matches Err(e) && e is MalformedResponse,
            }),
    {
        if !(200 <= resp.status && resp.status < 300) {
            return Err(status_error(resp.status, resp.body.clone()));
        }
        match json::parse_catalog_body(resp.body.as_slice()) {
            Some(repos) => Ok(repos),
            None => Err(
                Error::MalformedResponse(String::from_str("catalog body holds no repositories")),
            ),
        }
    }
}

} // verus!
