//! Manifest fetching and decoding.
//!
//! The same endpoint serves several mutually incompatible media types;
//! the response `Content-Type` decides which variant a body decodes
//! into, with the body's `schemaVersion` as a fallback when the header
//! is absent.

use vstd::prelude::*;
use crate::errors::{Error, is_status_error, status_error};
use crate::http::{HttpRequest, HttpResponse, Method, is_success, spec_header};
use crate::http;
use crate::json;
use crate::mediatypes::{MediaTypes, spec_media_type};
use crate::strutil;
use crate::v2::Client;

verus! {

/// The historical signed schema 1 format: layer digests in wire order
/// (top-down) and one JSON-encoded `v1Compatibility` string per history
/// entry.
#[derive(Debug, Clone, PartialEq, Eq)]
pub struct ManifestSchema1Signed {
    pub fs_layers: Vec<String>,
    pub history: Vec<String>,
}

/// A typed pointer to a blob.
#[derive(Debug, Clone, PartialEq, Eq)]
pub struct Descriptor {
    pub digest: String,
    pub media_type: Option<String>,
    pub size: Option<u64>,
}

/// The schema 2 format: a config descriptor and layers in order.
#[derive(Debug, Clone, PartialEq, Eq)]
pub struct ManifestSchema2 {
    pub config: Descriptor,
    pub layers: Vec<Descriptor>,
}

/// One child of a multi-arch manifest list.
#[derive(Debug, Clone, PartialEq, Eq)]
pub struct PlatformEntry {
    pub digest: String,
    pub os: Option<String>,
    pub architecture: Option<String>,
}

/// The multi-arch list format; resolving a child needs another fetch.
#[derive(Debug, Clone, PartialEq, Eq)]
pub struct ManifestList {
    pub manifests: Vec<PlatformEntry>,
}

/// A manifest, tagged by the media type it was served as.
#[derive(Debug, Clone, PartialEq, Eq)]
pub enum Manifest {
    S1Signed(ManifestSchema1Signed),
    S2(ManifestSchema2),
    List(ManifestList),
}

/// The variant a media type decodes into.
pub open spec fn manifest_matches(m: Manifest, mt: MediaTypes) -> bool {
    match mt {
        MediaTypes::ManifestV2S1Signed => m is S1Signed,
        MediaTypes::ManifestV2S2 => m is S2,
        MediaTypes::ManifestList => m is List,
    }
}

/// The plain view of a descriptor: digest, media type and size.
pub open spec fn descriptor_view(d: Descriptor) -> (Seq<char>, Option<Seq<char>>, Option<u64>) {
    (d.digest@, strutil::opt_str_view(d.media_type), d.size)
}

/// The plain views of a descriptor vector.
pub open spec fn descriptors_view(v: Seq<Descriptor>) -> Seq<
    (Seq<char>, Option<Seq<char>>, Option<u64>),
> {
    v.map_values(|d: Descriptor| descriptor_view(d))
}

/// The plain view of a manifest-list entry: digest, os, architecture.
pub open spec fn platform_view(p: PlatformEntry) -> (
    Seq<char>,
    Option<Seq<char>>,
    Option<Seq<char>>,
) {
    (p.digest@, strutil::opt_str_view(p.os), strutil::opt_str_view(p.architecture))
}

/// The plain views of the entries of a manifest list.
pub open spec fn platforms_view(v: Seq<PlatformEntry>) -> Seq<
    (Seq<char>, Option<Seq<char>>, Option<Seq<char>>),
> {
    v.map_values(|p: PlatformEntry| platform_view(p))
}

/// What decoding a schema 1 body must yield: the manifest whose layers
/// and history are exactly the named parses, or a malformed-response
/// error when either is absent.
pub open spec fn spec_schema1_result(b: Seq<u8>, r: Result<Manifest, Error>) -> bool {
    match (json::schema1_layers_of(b), json::schema1_history_of(b)) {
        (Option::Some(fs), Option::Some(hs)) => r matches Ok(m) && m matches Manifest::S1Signed(m1)
            && strutil::strs_view(m1.fs_layers@) == fs && strutil::strs_view(m1.history@) == hs,
        _ => r matches Err(e) && e is MalformedResponse,
    }
}

/// What decoding a schema 2 body must yield.
pub open spec fn spec_schema2_result(b: Seq<u8>, r: Result<Manifest, Error>) -> bool {
    match (json::schema2_config_of(b), json::schema2_layers_of(b)) {
        (Option::Some(c), Option::Some(ls)) => r matches Ok(m) && m matches Manifest::S2(m2)
            && descriptor_view(m2.config) == c && descriptors_view(m2.layers@) == ls,
        _ => r matches Err(e) && e is MalformedResponse,
    }
}

/// What decoding a manifest-list body must yield.
pub open spec fn spec_list_result(b: Seq<u8>, r: Result<Manifest, Error>) -> bool {
    match json::list_of(b) {
        Option::Some(ps) => r matches Ok(m) && m matches Manifest::List(l) && platforms_view(
            l.manifests@,
        ) == ps,
        Option::None => r matches Err(e) && e is MalformedResponse,
    }
}

/// What decoding under the `schemaVersion: 2` fallback must yield: a
/// body that decodes as a list is a list, any other must decode as
/// schema 2.
pub open spec fn spec_fallback2_result(b: Seq<u8>, r: Result<Manifest, Error>) -> bool {
    match json::list_of(b) {
        Option::Some(ps) => r matches Ok(m) && m matches Manifest::List(l) && platforms_view(
            l.manifests@,
        ) == ps,
        Option::None => spec_schema2_result(b, r),
    }
}

impl ManifestSchema1Signed {
    /// Layer digests in base-first order: `fsLayers` reversed.
    #[verifier::loop_isolation(false)]
    pub fn get_layers(&self) -> (r: Vec<String>)
        ensures
            r@.len() == self.fs_layers@.len(),
            forall|i: int| 0 <= i < r@.len() ==> r@[i]@ == self.fs_layers@[self.fs_layers@.len() - 1
                - i]@,
    {
        let mut out: Vec<String> = Vec::new();
        let mut i: usize = self.fs_layers.len();
        while i > 0
            invariant
                i <= self.fs_layers@.len(),
                out@.len() == self.fs_layers@.len() - i,
                forall|j: int| 0 <= j < out@.len() ==> out@[j]@ == self.fs_layers@[
                self.fs_layers@.len() - 1 - j]@,
            decreases i,
        {
            i = i - 1;
            out.push(self.fs_layers[i].clone());
        }
        out
    }

    /// The labels of one history entry: the `config.Labels` object of
    /// its `v1Compatibility` JSON, as name-value pairs.  An index past
    /// the history is absent.
    pub fn get_labels(&self, index: usize) -> (r: Option<Vec<(String, String)>>)
        ensures
            index >= self.history@.len() ==> r is None,
            index < self.history@.len() ==> (match json::labels_of(self.history@[index as int]@) {
                Option::Some(ls) => r matches Some(v) && strutil::pairs_view(v@) == ls,
                Option::None => r is None,
            }),
    {
        if index >= self.history.len() {
            return None;
        }
        json::parse_labels(self.history[index].as_str())
    }
}

impl ManifestSchema2 {
    /// Layer digests, in the order the manifest gives them.
    #[verifier::loop_isolation(false)]
    pub fn get_layers(&self) -> (r: Vec<String>)
        ensures
            r@.len() == self.layers@.len(),
            forall|i: int| 0 <= i < r@.len() ==> r@[i]@ == self.layers@[i].digest@,
    {
        let mut out: Vec<String> = Vec::new();
        let mut i: usize = 0;
        while i < self.layers.len()
            invariant
                i <= self.layers@.len(),
                out@.len() == i,
                forall|j: int| 0 <= j < i ==> out@[j]@ == self.layers@[j].digest@,
            decreases self.layers@.len() - i,
        {
            out.push(self.layers[i].digest.clone());
            i = i + 1;
        }
        out
    }
}

impl Manifest {
    /// The uniform layer view: base-first for schema 1, as-given for
    /// schema 2; a list has no layers of its own and must be resolved.
    pub fn get_layers(&self) -> (r: Result<Vec<String>, Error>)
        ensures
            match self {
                Manifest::S1Signed(m) => r matches Ok(v) && v@.len() == m.fs_layers@.len() && (
                forall|i: int|
                    0 <= i < v@.len() ==> v@[i]@ == m.fs_layers@[m.fs_layers@.len() - 1 - i]@),
                Manifest::S2(m) => r matches Ok(v) && v@.len() == m.layers@.len() && (forall|i: int|
                    0 <= i < v@.len() ==> v@[i]@ == m.layers@[i].digest@),
                Manifest::List(_) => r matches Err(e) && e is UnknownMediaType,
            },
    {
        match self {
            Manifest::S1Signed(m) => Ok(m.get_layers()),
            Manifest::S2(m) => Ok(m.get_layers()),
            Manifest::List(_) => Err(Error::UnknownMediaType),
        }
    }
}

/// Reversal law for schema 1: the uniform layer view has exactly as
/// many entries as `fsLayers`, and its first entry is the last
/// `blobSum` of the wire format.
pub proof fn lemma_schema1_reversal(m: ManifestSchema1Signed, v: Seq<String>)
    requires
        v.len() == m.fs_layers@.len(),
        forall|i: int| 0 <= i < v.len() ==> v[i]@ == m.fs_layers@[m.fs_layers@.len() - 1 - i]@,
    ensures
        v.len() == m.fs_layers@.len(),
        v.len() > 0 ==> v[0]@ == m.fs_layers@[m.fs_layers@.len() - 1]@,
{
}

/// The headers of `h` include `accept` with the exact value `v`.
pub open spec fn has_accept(h: Seq<(String, String)>, v: Seq<char>) -> bool {
    exists|i: int| 0 <= i < h.len() && h[i].0@ == "accept"@ && h[i].1@ == v
}

/// The complete header list of a manifest request: the plain request
/// headers followed by the `Accept` list, nothing else.
pub open spec fn spec_manifest_headers(c: Client, h: Seq<(String, String)>) -> bool {
    &&& h.len() >= 1
    &&& crate::v2::spec_base_headers(c, h.drop_last())
    &&& h.last().0@ == "accept"@
    &&& h.last().1@ == spec_accept_types()
}

/// The `Accept` list naming every supported manifest media type.
pub open spec fn spec_accept_types() -> Seq<char> {
    "application/vnd.docker.distribution.manifest.v1+prettyjws,application/vnd.docker.distribution.manifest.v2+json,application/vnd.docker.distribution.manifest.list.v2+json"@
}

impl Client {
    fn manifest_headers(&self) -> (r: Vec<(String, String)>)
        ensures
            spec_manifest_headers(*self, r@),
            has_accept(r@, spec_accept_types()),
            self.user_agent matches Some(u) ==> crate::v2::has_user_agent(r@, u@),
            self.token matches Some(t) ==> crate::v2::has_authorization(r@, "Bearer "@ + t@),
    {
        let mut r = self.base_headers();
        let ghost before = r@;
        r.push(
            (
                String::from_str("accept"),
                String::from_str(
                    "application/vnd.docker.distribution.manifest.v1+prettyjws,application/vnd.docker.distribution.manifest.v2+json,application/vnd.docker.distribution.manifest.list.v2+json",
                ),
            ),
        );
        proof {
            let n = before.len() as int;
            assert(has_accept(r@, spec_accept_types())) by {
                assert(r@[n].0@ == "accept"@);
            }
            if self.user_agent is Some {
                let u = self.user_agent->0;
                let i = choose|i: int|
                    0 <= i < before.len() && before[i].0@ == "user-agent"@ && before[i].1@ == u@;
                assert(r@[i].0@ == "user-agent"@ && r@[i].1@ == u@);
            }
            if self.token is Some {
                let t = self.token->0;
                let i = choose|i: int|
                    0 <= i < before.len() && before[i].0@ == "authorization"@ && before[i].1@
                        == "Bearer "@ + t@;
                assert(r@[i].0@ == "authorization"@ && r@[i].1@ == "Bearer "@ + t@);
            }
        }
        r
    }

    /// The request of `GET /v2/{name}/manifests/{reference}`, accepting
    /// every supported media type.
    pub fn manifest_request(&self, name: &str, reference: &str) -> (r: HttpRequest)
        ensures
            r.method == Method::Get,
            r.url@ == self.base_url@ + "/v2/"@ + name@ + "/manifests/"@ + reference@,
            spec_manifest_headers(*self, r.headers@),
            has_accept(r.headers@, spec_accept_types()),
            self.user_agent matches Some(u) ==> crate::v2::has_user_agent(r.headers@, u@),
    {
        let url = self.base_url.clone().concat("/v2/").concat(name).concat("/manifests/").concat(
            reference,
        );
        HttpRequest { method: Method::Get, url, headers: self.manifest_headers() }
    }

    /// The existence probe: `HEAD` on the same endpoint.
    pub fn has_manifest_request(&self, name: &str, reference: &str) -> (r: HttpRequest)
        ensures
            r.method == Method::Head,
            r.url@ == self.base_url@ + "/v2/"@ + name@ + "/manifests/"@ + reference@,
            spec_manifest_headers(*self, r.headers@),
            has_accept(r.headers@, spec_accept_types()),
            self.user_agent matches Some(u) ==> crate::v2::has_user_agent(r.headers@, u@),
    {
        let url = self.base_url.clone().concat("/v2/").concat(name).concat("/manifests/").concat(
            reference,
        );
        HttpRequest { method: Method::Head, url, headers: self.manifest_headers() }
    }

    /// What the existence probe answered: the recognized media type on
    /// `200`, absence on `404` or on an unrecognized type, an error on
    /// any other status.
    pub fn has_manifest(&self, resp: &HttpResponse) -> (r: Result<Option<MediaTypes>, Error>)
        ensures
            resp.status == 200 ==> r == Ok::<Option<MediaTypes>, Error>(
                match spec_header(resp.headers@, "content-type"@) {
                    Option::Some(ct) => spec_media_type(ct),
                    Option::None => Option::None,
                },
            ),
            resp.status == 404 ==> r == Ok::<Option<MediaTypes>, Error>(Option::None),
            resp.status != 200 && resp.status != 404 ==> (r matches Err(e) && is_status_error(
                e,
                resp.status,
                resp.body@,
            )),
    {
        if resp.status == 200 {
            match http::header_value(&resp.headers, "content-type") {
                Some(ct) => Ok(MediaTypes::from_content_type(ct.as_str())),
                None => Ok(None),
            }
        } else if resp.status == 404 {
            Ok(None)
        } else {
            Err(status_error(resp.status, resp.body.clone()))
        }
    }

    /// Decode a manifest response.  The `Content-Type` picks the
    /// variant; a recognized type's body must decode into exactly that
    /// variant, an unrecognized one is refused, and a missing one falls
    /// back to the body's `schemaVersion`.
    pub fn get_manifest(&self, resp: &HttpResponse) -> (r: Result<Manifest, Error>)
        ensures
            !is_success(resp.status) ==> (r matches Err(e) && is_status_error(
                e,
                resp.status,
                resp.body@,
            )),
            r is Ok ==> is_success(resp.status),
            r matches Ok(m) ==> (match spec_header(resp.headers@, "content-type"@) {
                Option::Some(ct) => spec_media_type(ct) matches Some(mt) && manifest_matches(m, mt),
                Option::None => true,
            }),
            is_success(resp.status) ==> (match spec_header(resp.headers@, "content-type"@) {
                Option::Some(ct) => match spec_media_type(ct) {
                    Option::Some(MediaTypes::ManifestV2S1Signed) => spec_schema1_result(
                        resp.body@,
                        r,
                    ),
                    Option::Some(MediaTypes::ManifestV2S2) => spec_schema2_result(resp.body@, r),
                    Option::Some(MediaTypes::ManifestList) => spec_list_result(resp.body@, r),
                    Option::None => r == Err::<Manifest, Error>(Error::UnknownMediaType),
                },
                Option::None => match json::schema_version_of(resp.body@) {
                    Option::Some(v) => {
                        if v == 1 {
                            spec_schema1_result(resp.body@, r)
                        } else if v == 2 {
                            spec_fallback2_result(resp.body@, r)
                        } else {
                            r == Err::<Manifest, Error>(Error::UnknownMediaType)
                        }
                    },
                    Option::None => r == Err::<Manifest, Error>(Error::UnknownMediaType),
                },
            }),
    {
        if !(200 <= resp.status && resp.status < 300) {
            return Err(status_error(resp.status, resp.body.clone()));
        }
        let body = resp.body.as_slice();
        match http::header_value(&resp.headers, "content-type") {
            Some(c) => match MediaTypes::from_content_type(c.as_str()) {
                Some(MediaTypes::ManifestV2S1Signed) => Self::decode_schema1(body),
                Some(MediaTypes::ManifestV2S2) => Self::decode_schema2(body),
                Some(MediaTypes::ManifestList) => Self::decode_list(body),
                None => Err(Error::UnknownMediaType),
            },
            None => match json::parse_schema_version(body) {
                Some(1u64) => Self::decode_schema1(body),
                Some(2u64) => match json::parse_list_body(body) {
                    Some(l) => Ok(Manifest::List(l)),
                    None => Self::decode_schema2(body),
                },
                _ => Err(Error::UnknownMediaType),
            },
        }
    }

    /// Decode a schema 1 body.
    fn decode_schema1(body: &[u8]) -> (r: Result<Manifest, Error>)
        ensures
            spec_schema1_result(body@, r),
    {
        match (json::parse_schema1_layers(body), json::parse_schema1_history(body)) {
            (Some(fs_layers), Some(history)) => Ok(
                Manifest::S1Signed(ManifestSchema1Signed { fs_layers, history }),
            ),
            _ => Err(Error::MalformedResponse(String::from_str("malformed schema 1 manifest"))),
        }
    }

    /// Decode a schema 2 body.
    fn decode_schema2(body: &[u8]) -> (r: Result<Manifest, Error>)
        ensures
            spec_schema2_result(body@, r),
    {
        match (json::parse_schema2_config(body), json::parse_schema2_layers(body)) {
            (Some(config), Some(layers)) => Ok(Manifest::S2(ManifestSchema2 { config, layers })),
            _ => Err(Error::MalformedResponse(String::from_str("malformed schema 2 manifest"))),
        }
    }

    /// Decode a manifest-list body.
    fn decode_list(body: &[u8]) -> (r: Result<Manifest, Error>)
        ensures
            spec_list_result(body@, r),
    {
        match json::parse_list_body(body) {
            Some(l) => Ok(Manifest::List(l)),
            None => Err(Error::MalformedResponse(String::from_str("malformed manifest list"))),
        }
    }
}

} // verus!
