//! Token-based authentication negotiation.
//!
//! On a `401` probe answer the registry names a token service in a
//! `WWW-Authenticate: Bearer` challenge.  The challenge is a list of
//! comma-separated `key=value` directives whose values may be quoted
//! strings with backslash escapes.  The negotiator parses it, asks the
//! realm for a scoped token with HTTP Basic credentials, and caches the
//! token on the client.

use vstd::prelude::*;
use crate::encoding;
use crate::encoding::b64_of_str;
use crate::errors::Error;
use crate::http::{HttpRequest, HttpResponse, Method, is_success, spec_header};
use crate::http;
use crate::json;
use crate::strutil;
use crate::strutil::has_prefix;
use crate::v2::{Client, has_user_agent, has_authorization};

verus! {

/// A parsed `WWW-Authenticate: Bearer` challenge.
#[derive(Debug, Clone, PartialEq, Eq)]
pub struct Challenge {
    pub realm: String,
    pub service: Option<String>,
    pub scope: Option<String>,
}

/// The content of a quoted string, read after its opening quote: each
/// backslash escape stands for its escaped character, and the closing
/// quote ends it.  Returns the content and what follows the quote.
pub open spec fn spec_parse_quoted(s: Seq<char>) -> Option<(Seq<char>, Seq<char>)>
    decreases s.len(),
{
    if s.len() == 0 {
        Option::None
    } else if s[0] == '"' {
        Option::Some((Seq::empty(), s.skip(1)))
    } else if s[0] == '\\' {
        if s.len() >= 2 {
            match spec_parse_quoted(s.skip(2)) {
                Option::Some((v, r)) => Option::Some((seq![s[1]] + v, r)),
                Option::None => Option::None,
            }
        } else {
            Option::None
        }
    } else {
        match spec_parse_quoted(s.skip(1)) {
            Option::Some((v, r)) => Option::Some((seq![s[0]] + v, r)),
            Option::None => Option::None,
        }
    }
}

/// An unquoted directive value: everything up to the next comma.
pub open spec fn spec_parse_token(s: Seq<char>) -> (Seq<char>, Seq<char>) {
    match s.index_of_first(',') {
        Option::Some(i) => (s.take(i), s.skip(i)),
        Option::None => (s, Seq::empty()),
    }
}

/// A directive value: quoted when it opens with a quote, bare otherwise.
pub open spec fn spec_parse_value(s: Seq<char>) -> Option<(Seq<char>, Seq<char>)> {
    if s.len() >= 1 && s[0] == '"' {
        spec_parse_quoted(s.skip(1))
    } else {
        Option::Some(spec_parse_token(s))
    }
}

/// The input without its leading spaces.
pub open spec fn spec_trim_left(s: Seq<char>) -> Seq<char>
    decreases s.len(),
{
    if s.len() > 0 && s[0] == ' ' {
        spec_trim_left(s.skip(1))
    } else {
        s
    }
}

/// One `key=value` directive, after optional spaces: a nonempty key
/// free of commas, quotes and spaces, then `=`, then a value.
pub open spec fn spec_parse_directive(s: Seq<char>) -> Option<((Seq<char>, Seq<char>), Seq<char>)> {
    let t = spec_trim_left(s);
    match t.index_of_first('=') {
        Option::None => Option::None,
        Option::Some(i) => {
            if i >= 1 && (forall|j: int| 0 <= j < i ==> t[j] != ',' && t[j] != '"' && t[j] != ' ') {
                match spec_parse_value(t.skip(i + 1)) {
                    Option::Some((v, r)) => Option::Some(((t.take(i), v), r)),
                    Option::None => Option::None,
                }
            } else {
                Option::None
            }
        },
    }
}

/// A comma-separated directive list, in order.
pub open spec fn spec_parse_directives(s: Seq<char>) -> Option<Seq<(Seq<char>, Seq<char>)>>
    decreases s.len(),
{
    match spec_parse_directive(s) {
        Option::None => Option::None,
        Option::Some((kv, r)) => {
            if r.len() == 0 {
                Option::Some(seq![kv])
            } else if r[0] == ',' && r.len() < s.len() {
                match spec_parse_directives(r.skip(1)) {
                    Option::Some(ds) => Option::Some(seq![kv] + ds),
                    Option::None => Option::None,
                }
            } else {
                Option::None
            }
        },
    }
}

/// The value of the first directive named `k`.
pub open spec fn spec_directive_value(ds: Seq<(Seq<char>, Seq<char>)>, k: Seq<char>) -> Option<
    Seq<char>,
>
    decreases ds.len(),
{
    if ds.len() == 0 {
        Option::None
    } else if ds[0].0 == k {
        Option::Some(ds[0].1)
    } else {
        spec_directive_value(ds.drop_first(), k)
    }
}

/// The views of a parsed directive vector.
pub open spec fn directives_view(ds: Seq<(String, String)>) -> Seq<(Seq<char>, Seq<char>)> {
    ds.map_values(|kv: (String, String)| (kv.0@, kv.1@))
}

/// What a `WWW-Authenticate` header value names: for a `Bearer` header
/// whose directives parse and hold a `realm`, the realm with the
/// optional `service` and `scope`; nothing otherwise.
pub open spec fn spec_challenge_of(h: Seq<char>) -> Option<
    (Seq<char>, Option<Seq<char>>, Option<Seq<char>>),
> {
    if has_prefix(h, "Bearer "@) {
        match spec_parse_directives(h.skip(7)) {
            Option::Some(ds) => match spec_directive_value(ds, "realm"@) {
                Option::Some(realm) => Option::Some(
                    (realm, spec_directive_value(ds, "service"@), spec_directive_value(
                        ds,
                        "scope"@,
                    )),
                ),
                Option::None => Option::None,
            },
            Option::None => Option::None,
        }
    } else {
        Option::None
    }
}

/// The token-exchange URL a challenge asks for, with the caller's scope
/// taking precedence over the echoed one.
pub open spec fn spec_token_url(
    realm: Seq<char>,
    service: Option<Seq<char>>,
    chscope: Option<Seq<char>>,
    reqscope: Option<Seq<char>>,
) -> Seq<char> {
    realm + "?service="@ + (match service {
        Option::Some(s) => s,
        Option::None => Seq::<char>::empty(),
    }) + "&scope="@ + (match reqscope {
        Option::Some(s) => s,
        Option::None => match chscope {
            Option::Some(s) => s,
            Option::None => Seq::<char>::empty(),
        },
    })
}

/// The complete header list of a token-exchange request: the Basic
/// credentials when the client has any, then the user agent, nothing
/// else.
pub open spec fn spec_token_headers(c: Client, h: Seq<(String, String)>) -> bool {
    &&& h.len() == (if c.credentials is Some {
        1int
    } else {
        0int
    }) + (if c.user_agent is Some {
        1int
    } else {
        0int
    })
    &&& (c.credentials matches Some((cu, cp)) ==> h[0].0@ == "authorization"@ && h[0].1@
        == "Basic "@ + b64_of_str(cu@ + seq![':'] + cp@))
    &&& (c.credentials is None ==> (c.user_agent matches Some(u) ==> h[0].0@ == "user-agent"@
        && h[0].1@ == u@))
    &&& (c.credentials is Some ==> (c.user_agent matches Some(u) ==> h[1].0@ == "user-agent"@
        && h[1].1@ == u@))
}

/// The view of the caller's requested scope.
pub open spec fn spec_scope_view(scope: Option<&str>) -> Option<Seq<char>> {
    match scope {
        Option::Some(s) => Option::Some(s@),
        Option::None => Option::None,
    }
}

/// Read a quoted value, after its opening quote.
fn parse_quoted<'a>(s: &'a str) -> (r: Option<(String, &'a str)>)
    ensures
        match r {
            Some((v, rest)) => spec_parse_quoted(s@) == Option::Some((v@, rest@)) && rest@.len()
                < s@.len(),
            None => spec_parse_quoted(s@) is None,
        },
    decreases s@.len(),
{
    let n = s.unicode_len();
    if n == 0 {
        return None;
    }
    let c = s.get_char(0);
    if c == '"' {
        let rest = s.substring_char(1, n);
        proof {
            assert(rest@ =~= s@.skip(1));
        }
        let v = String::new();
        proof {
            assert(v@ =~= Seq::<char>::empty());
        }
        return Some((v, rest));
    }
    if c == '\\' {
        if n < 2 {
            return None;
        }
        let e = s.get_char(1);
        let tail = s.substring_char(2, n);
        proof {
            assert(tail@ =~= s@.skip(2));
        }
        match parse_quoted(tail) {
            Some((v, rest)) => {
                let mut out = String::new();
                strutil::string_push(&mut out, e);
                let out = out.concat(v.as_str());
                proof {
                    assert(out@ =~= seq![s@[1]] + v@);
                }
                Some((out, rest))
            },
            None => None,
        }
    } else {
        let tail = s.substring_char(1, n);
        proof {
            assert(tail@ =~= s@.skip(1));
        }
        match parse_quoted(tail) {
            Some((v, rest)) => {
                let mut out = String::new();
                strutil::string_push(&mut out, c);
                let out = out.concat(v.as_str());
                proof {
                    assert(out@ =~= seq![s@[0]] + v@);
                }
                Some((out, rest))
            },
            None => None,
        }
    }
}

/// Read a bare value, up to the next comma.
fn parse_token_value<'a>(s: &'a str) -> (r: (String, &'a str))
    ensures
        spec_parse_token(s@) == (r.0@, r.1@),
{
    let n = s.unicode_len();
    proof {
        s@.index_of_first_ensures(',');
    }
    match strutil::find_char(s, 0, ',') {
        None => {
            proof {
                match s@.index_of_first(',') {
                    Option::Some(j) => {
                        assert(s@[j] == ',');
                    },
                    Option::None => {},
                }
            }
            let rest = s.substring_char(n, n);
            proof {
                assert(rest@ =~= Seq::<char>::empty());
                assert(s@.take(n as int) =~= s@);
            }
            (s.to_owned(), rest)
        },
        Some(i) => {
            proof {
                match s@.index_of_first(',') {
                    Option::Some(j) => {
                        if j < i {
                            assert(s@[j] == ',');
                        }
                        if i < j {
                            assert(s@[i as int] == ',');
                        }
                        assert(j == i);
                    },
                    Option::None => {
                        assert(s@[i as int] == ',');
                    },
                }
            }
            let v = s.substring_char(0, i);
            let rest = s.substring_char(i, n);
            proof {
                assert(v@ =~= s@.take(i as int));
                assert(rest@ =~= s@.skip(i as int));
            }
            (v.to_owned(), rest)
        },
    }
}

/// Read a directive value.
fn parse_value<'a>(s: &'a str) -> (r: Option<(String, &'a str)>)
    ensures
        match r {
            Some((v, rest)) => spec_parse_value(s@) == Option::Some((v@, rest@)) && rest@.len()
                <= s@.len(),
            None => spec_parse_value(s@) is None,
        },
{
    let n = s.unicode_len();
    if n >= 1 && s.get_char(0) == '"' {
        let tail = s.substring_char(1, n);
        proof {
            assert(tail@ =~= s@.skip(1));
        }
        parse_quoted(tail)
    } else {
        let (v, rest) = parse_token_value(s);
        proof {
            s@.index_of_first_ensures(',');
        }
        Some((v, rest))
    }
}

/// The input without its leading spaces.
fn trim_left<'a>(s: &'a str) -> (r: &'a str)
    ensures
        r@ == spec_trim_left(s@),
        r@.len() <= s@.len(),
    decreases s@.len(),
{
    let n = s.unicode_len();
    if n > 0 && s.get_char(0) == ' ' {
        let tail = s.substring_char(1, n);
        proof {
            assert(tail@ =~= s@.skip(1));
        }
        trim_left(tail)
    } else {
        s
    }
}

/// Read one `key=value` directive.
#[verifier::loop_isolation(false)]
fn parse_directive<'a>(s: &'a str) -> (r: Option<((String, String), &'a str)>)
    ensures
        match r {
            Some((kv, rest)) => spec_parse_directive(s@) == Option::Some(
                ((kv.0@, kv.1@), rest@),
            ) && rest@.len() < s@.len(),
            None => spec_parse_directive(s@) is None,
        },
{
    let t = trim_left(s);
    let n = t.unicode_len();
    proof {
        t@.index_of_first_ensures('=');
    }
    match strutil::find_char(t, 0, '=') {
        None => {
            proof {
                match t@.index_of_first('=') {
                    Option::Some(j) => {
                        assert(t@[j] == '=');
                    },
                    Option::None => {},
                }
            }
            None
        },
        Some(i) => {
            proof {
                match t@.index_of_first('=') {
                    Option::Some(j) => {
                        if j < i {
                            assert(t@[j] == '=');
                        }
                        if i < j {
                            assert(t@[i as int] == '=');
                        }
                        assert(j == i);
                    },
                    Option::None => {
                        assert(t@[i as int] == '=');
                    },
                }
            }
            if i == 0 {
                return None;
            }
            let mut k: usize = 0;
            while k < i
                invariant
                    k <= i,
                    forall|j: int| 0 <= j < k ==> t@[j] != ',' && t@[j] != '"' && t@[j] != ' ',
                decreases i - k,
            {
                let c = t.get_char(k);
                if c == ',' || c == '"' || c == ' ' {
                    return None;
                }
                k = k + 1;
            }
            let key = t.substring_char(0, i);
            let after = t.substring_char(i + 1, n);
            proof {
                assert(key@ =~= t@.take(i as int));
                assert(after@ =~= t@.skip(i + 1));
            }
            match parse_value(after) {
                Some((v, rest)) => Some(((key.to_owned(), v), rest)),
                None => None,
            }
        },
    }
}

/// Read a comma-separated directive list.
fn parse_directives(s: &str) -> (r: Option<Vec<(String, String)>>)
    ensures
        match r {
            Some(ds) => spec_parse_directives(s@) == Option::Some(directives_view(ds@)),
            None => spec_parse_directives(s@) is None,
        },
    decreases s@.len(),
{
    match parse_directive(s) {
        None => None,
        Some(((key, value), rest)) => {
            let rn = rest.unicode_len();
            if rn == 0 {
                let mut out: Vec<(String, String)> = Vec::new();
                out.push((key, value));
                proof {
                    assert(directives_view(out@) =~= seq![(out@[0].0@, out@[0].1@)]);
                }
                Some(out)
            } else if rest.get_char(0) == ',' {
                let tail = rest.substring_char(1, rn);
                proof {
                    assert(tail@ =~= rest@.skip(1));
                }
                match parse_directives(tail) {
                    Some(mut ds) => {
                        ds.insert(0, (key, value));
                        proof {
                            assert(directives_view(ds@) =~= seq![(ds@[0].0@, ds@[0].1@)]
                                + directives_view(ds@.drop_first()));
                        }
                        Some(ds)
                    },
                    None => None,
                }
            } else {
                None
            }
        },
    }
}

/// The value of the first directive named `k`.
#[verifier::loop_isolation(false)]
fn directive_value(ds: &Vec<(String, String)>, k: &str) -> (r: Option<String>)
    ensures
        match r {
            Some(v) => spec_directive_value(directives_view(ds@), k@) == Option::Some(v@),
            None => spec_directive_value(directives_view(ds@), k@) is None,
        },
{
    let mut i: usize = 0;
    proof {
        assert(directives_view(ds@.skip(0)) =~= directives_view(ds@));
    }
    while i < ds.len()
        invariant
            i <= ds@.len(),
            spec_directive_value(directives_view(ds@), k@) == spec_directive_value(
                directives_view(ds@.skip(i as int)),
                k@,
            ),
        decreases ds@.len() - i,
    {
        proof {
            assert(directives_view(ds@.skip(i as int))[0] == (ds@[i as int].0@, ds@[i as int].1@));
            assert(directives_view(ds@.skip(i as int)).drop_first() =~= directives_view(
                ds@.skip(i + 1),
            ));
        }
        if strutil::str_eq(ds[i].0.as_str(), k) {
            return Some(ds[i].1.clone());
        }
        i = i + 1;
    }
    None
}

/// Parse a `WWW-Authenticate` header value.  Only the `Bearer` scheme
/// is supported; the challenge must name a `realm`.
pub fn parse_www_authenticate(h: &str) -> (r: Result<Challenge, Error>)
    ensures
        match r {
            Ok(c) => spec_challenge_of(h@) == Option::Some(
                (c.realm@, crate::strutil::opt_str_view(c.service), crate::strutil::opt_str_view(
                    c.scope,
                )),
            ),
            Err(e) => e is Auth && spec_challenge_of(h@) is None,
        },
{
    if !strutil::starts_with(h, "Bearer ") {
        return Err(Error::Auth(String::from_str("unsupported auth scheme")));
    }
    proof {
        reveal_strlit("Bearer ");
    }
    let n = h.unicode_len();
    let rest = h.substring_char(7, n);
    proof {
        assert(rest@ =~= h@.skip(7));
    }
    let ds = match parse_directives(rest) {
        Some(ds) => ds,
        None => {
            return Err(Error::Auth(String::from_str("malformed challenge")));
        },
    };
    let realm = match directive_value(&ds, "realm") {
        Some(x) => x,
        None => {
            return Err(Error::Auth(String::from_str("challenge names no realm")));
        },
    };
    let service = directive_value(&ds, "service");
    let scope = directive_value(&ds, "scope");
    Ok(Challenge { realm, service, scope })
}

/// What the negotiator asks the embedder to do next.
#[derive(Debug, Clone, PartialEq, Eq)]
pub enum AuthAction {
    /// No token is needed: the client is usable as it is.
    Authenticated(Client),
    /// Exchange credentials for a token at the realm.
    Exchange(HttpRequest),
}

impl Client {
    /// The token-exchange request a challenge asks for:
    /// `GET {realm}?service={service}&scope={scope}` with HTTP Basic
    /// credentials when the client has any.  A scope requested by the
    /// caller takes precedence over the one the challenge echoed.
    pub fn token_request(&self, ch: &Challenge, scope: Option<&str>) -> (r: HttpRequest)
        ensures
            r.method == Method::Get,
            r.url@ == spec_token_url(
                ch.realm@,
                crate::strutil::opt_str_view(ch.service),
                crate::strutil::opt_str_view(ch.scope),
                spec_scope_view(scope),
            ),
            spec_token_headers(*self, r.headers@),
            self.credentials matches Some((cu, cp)) ==> has_authorization(
                r.headers@,
                "Basic "@ + b64_of_str(cu@ + seq![':'] + cp@),
            ),
            self.user_agent matches Some(u) ==> has_user_agent(r.headers@, u@),
    {
        let mut url = ch.realm.clone().concat("?service=");
        if let Some(s) = &ch.service {
            url = url.concat(s.as_str());
        }
        url = url.concat("&scope=");
        match scope {
            Some(sc) => {
                url = url.concat(sc);
            },
            None => {
                if let Some(s) = &ch.scope {
                    url = url.concat(s.as_str());
                }
            },
        }
        let mut headers: Vec<(String, String)> = Vec::new();
        if let Some((cu, cp)) = &self.credentials {
            let joined = cu.clone().concat(":").concat(cp.as_str());
            proof {
                reveal_strlit(":");
                assert(joined@ =~= cu@ + seq![':'] + cp@);
            }
            let encoded = encoding::base64_encode_str(joined.as_str());
            let v = String::from_str("Basic ").concat(encoded.as_str());
            headers.push((String::from_str("authorization"), v));
        }
        if let Some(u) = &self.user_agent {
            headers.push((String::from_str("user-agent"), u.clone()));
        }
        proof {
            if self.credentials is Some {
                let (cu, cp) = self.credentials->0;
                assert(has_authorization(headers@, "Basic "@ + b64_of_str(cu@ + seq![':'] + cp@)))
                    by {
                    assert(headers@[0].0@ == "authorization"@);
                }
            }
            if self.user_agent is Some {
                let u = self.user_agent->0;
                if self.credentials is Some {
                    assert(has_user_agent(headers@, u@)) by {
                        assert(headers@[1].0@ == "user-agent"@);
                    }
                } else {
                    assert(has_user_agent(headers@, u@)) by {
                        assert(headers@[0].0@ == "user-agent"@);
                    }
                }
            }
        }
        HttpRequest { method: Method::Get, url, headers }
    }

    /// Decide what to do after the `/v2/` probe of the login flow:
    /// `200` needs no token, `401` turns the challenge into an
    /// exchange request, `404` marks a registry without v2 support.
    pub fn auth_step(self, scope: Option<&str>, resp: &HttpResponse) -> (r: Result<
        AuthAction,
        Error,
    >)
        ensures
            resp.status == 200 ==> r == Ok::<AuthAction, Error>(AuthAction::Authenticated(self)),
            resp.status == 404 ==> r == Err::<AuthAction, Error>(Error::UnsupportedV2),
            r matches Ok(a) && a is Exchange ==> resp.status == 401,
            resp.status == 401 ==> (match spec_header(resp.headers@, "www-authenticate"@) {
                Option::Some(h) => match spec_challenge_of(h) {
                    Option::Some((realm, svc, sc)) => r matches Ok(a) && a matches
                        AuthAction::Exchange(req) && req.method == Method::Get && req.url@
                        == spec_token_url(realm, svc, sc, spec_scope_view(scope))
                        && spec_token_headers(self, req.headers@),
                    Option::None => r matches Err(e) && e is Auth,
                },
                Option::None => r matches Err(e) && e is Auth,
            }),
            resp.status != 200 && resp.status != 401 && resp.status != 404 ==> (r matches Err(e)
                && e is Auth),
    {
        if resp.status == 200 {
            return Ok(AuthAction::Authenticated(self));
        }
        if resp.status == 404 {
            return Err(Error::UnsupportedV2);
        }
        if resp.status != 401 {
            return Err(Error::Auth(String::from_str("unexpected status on login probe")));
        }
        let header = match http::header_value(&resp.headers, "www-authenticate") {
            Some(h) => h,
            None => {
                return Err(Error::Auth(String::from_str("401 without a challenge")));
            },
        };
        let ch = match parse_www_authenticate(header.as_str()) {
            Ok(ch) => ch,
            Err(e) => {
                return Err(e);
            },
        };
        Ok(AuthAction::Exchange(self.token_request(&ch, scope)))
    }

    /// Pick the token out of an exchange response body: prefer `token`,
    /// fall back to `access_token`.
    pub fn choose_token(token: Option<String>, access_token: Option<String>) -> (r: Result<
        String,
        Error,
    >)
        ensures
            match token {
                Some(t) => r matches Ok(x) && x == t,
                None => match access_token {
                    Some(a) => r matches Ok(x) && x == a,
                    None => r matches Err(e) && e is Auth,
                },
            },
    {
        match token {
            Some(t) => Ok(t),
            None => match access_token {
                Some(a) => Ok(a),
                None => Err(Error::Auth(String::from_str("malformed token response"))),
            },
        }
    }

    /// Cache the token of a successful exchange response on the client:
    /// the body's `token` field, or `access_token` when `token` is
    /// absent; every other field is kept.
    pub fn handle_token_response(self, resp: &HttpResponse) -> (r: Result<Client, Error>)
        ensures
            match r {
                Ok(c) => {
                    &&& is_success(resp.status)
                    &&& json::token_fields_of(resp.body@) matches Some(tf)
                    &&& (match tf.0 {
                        Some(t) => c.token matches Some(x) && x@ == t,
                        None => tf.1 matches Some(a) && c.token matches Some(x) && x@ == a,
                    })
                    &&& c.base_url == self.base_url
                    &&& c.index == self.index
                    &&& c.user_agent == self.user_agent
                    &&& c.credentials == self.credentials
                },
                Err(e) => e is Auth && (!is_success(resp.status) || json::token_fields_of(
                    resp.body@,
                ) is None || (json::token_fields_of(resp.body@) matches Some(tf) && tf.0 is None
                    && tf.1 is None)),
            },
    {
        if !(200 <= resp.status && resp.status < 300) {
            return Err(Error::Auth(String::from_str("token exchange failed")));
        }
        let (token, access_token) = match json::parse_token_body(resp.body.as_slice()) {
            Some(tf) => tf,
            None => {
                return Err(Error::Auth(String::from_str("token response is not JSON")));
            },
        };
        let chosen = match Client::choose_token(token, access_token) {
            Ok(t) => t,
            Err(e) => {
                return Err(e);
            },
        };
        Ok(Client { token: Some(chosen), ..self })
    }
}

} // verus!
