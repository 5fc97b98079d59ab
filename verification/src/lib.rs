//! A client library for registries speaking the Docker Registry HTTP API v2.
//!
//! The library models every protocol decision as a verified function over
//! plain request and response values: an embedding program performs the
//! actual HTTP round-trips and feeds each response back in.

use vstd::prelude::*;
use vstd::utf8::{valid_utf8, decode_utf8};

pub mod encoding;
pub mod errors;
pub mod http;
pub mod json;
pub mod mediatypes;
pub mod strutil;
pub mod v2;

use crate::encoding::b64_decode_of;
use crate::errors::Error;

verus! {

/// Default User-Agent client identity.
pub fn user_agent_default() -> (r: String)
    ensures
        r@ == "camallo-dkregistry/0.0"@,
{
    String::from_str("camallo-dkregistry/0.0")
}

/// How a decoded `user:pass` entry splits into credentials: the part
/// before the first colon and the part after it.  Each empty side is
/// normalized to absent; with no colon at all, both are absent.
pub open spec fn spec_split_credentials(s: Seq<char>) -> (Option<Seq<char>>, Option<Seq<char>>) {
    match s.index_of_first(':') {
        Option::None => (Option::None, Option::None),
        Option::Some(i) => {
            let u = s.take(i);
            let p = s.skip(i + 1);
            (
                if u.len() == 0 {
                    Option::None
                } else {
                    Option::Some(u)
                },
                if p.len() == 0 {
                    Option::None
                } else {
                    Option::Some(p)
                },
            )
        },
    }
}

/// Split a decoded `user:pass` entry into its two credentials.
pub fn split_credentials(s: &str) -> (r: (Option<String>, Option<String>))
    ensures
        ({
            let (su, sp) = spec_split_credentials(s@);
            &&& (match r.0 {
                Some(u) => su == Option::Some(u@),
                None => su is None,
            })
            &&& (match r.1 {
                Some(p) => sp == Option::Some(p@),
                None => sp is None,
            })
        }),
{
    let n = s.unicode_len();
    proof {
        s@.index_of_first_ensures(':');
    }
    match strutil::find_char(s, 0, ':') {
        None => {
            proof {
                match s@.index_of_first(':') {
                    Option::Some(j) => {
                        assert(s@[j] == ':');
                    },
                    Option::None => {},
                }
            }
            (None, None)
        },
        Some(i) => {
            proof {
                match s@.index_of_first(':') {
                    Option::Some(j) => {
                        if j < i {
                            assert(s@[j] == ':');
                        }
                        if i < j {
                            assert(s@[i as int] == ':');
                        }
                        assert(j == i);
                    },
                    Option::None => {
                        assert(s@[i as int] == ':');
                    },
                }
            }
            let u = s.substring_char(0, i);
            let p = s.substring_char(i + 1, n);
            proof {
                assert(u@ =~= s@.take(i as int));
                assert(p@ =~= s@.skip(i + 1));
            }
            let user = if i == 0 {
                None
            } else {
                Some(u.to_owned())
            };
            let pass = if i + 1 == n {
                None
            } else {
                Some(p.to_owned())
            };
            (user, pass)
        },
    }
}

/// Turn one `auth` entry of a docker-style credentials file into a
/// username and password: base64-decode it, read it as UTF-8, and split
/// at the first colon.
pub fn credentials_from_auth(auth: &str) -> (r: Result<(Option<String>, Option<String>), Error>)
    ensures
        match r {
            Ok(up) => b64_decode_of(auth@) matches Some(bs) && valid_utf8(bs) && ({
                let (su, sp) = spec_split_credentials(decode_utf8(bs));
                &&& (match up.0 {
                    Some(u) => su == Option::Some(u@),
                    None => su is None,
                })
                &&& (match up.1 {
                    Some(p) => sp == Option::Some(p@),
                    None => sp is None,
                })
            }),
            Err(e) => e is MalformedResponse && (b64_decode_of(auth@) is None || (b64_decode_of(
                auth@,
            ) matches Some(bs) && !valid_utf8(bs))),
        },
{
    let decoded = match encoding::base64_decode(auth) {
        Some(d) => d,
        None => {
            return Err(Error::MalformedResponse(String::from_str("invalid base64 credentials")));
        },
    };
    let text = match encoding::string_from_utf8(decoded) {
        Some(t) => t,
        None => {
            return Err(Error::MalformedResponse(String::from_str("credentials are not UTF-8")));
        },
    };
    Ok(split_credentials(text.as_str()))
}

/// The key a registry index is looked up under in a credentials file:
/// `docker.io` and its registry host are kept under the legacy index URL.
pub open spec fn spec_lookup_key(index: Seq<char>) -> Seq<char> {
    if index == "docker.io"@ || index == "registry-1.docker.io"@ {
        "https://index.docker.io/v1/"@
    } else {
        index
    }
}

/// The credentials a docker-style config file holds for an index: the
/// `auth` entry under the looked-up key, base64-decoded, read as UTF-8
/// and split at the first colon; absent when any of these steps fails.
pub open spec fn spec_config_credentials(b: Seq<u8>, index: Seq<char>) -> Option<
    (Option<Seq<char>>, Option<Seq<char>>),
> {
    match json::auth_entry_of(b, spec_lookup_key(index)) {
        Option::Some(a) => match b64_decode_of(a) {
            Option::Some(bs) => if valid_utf8(bs) {
                Option::Some(spec_split_credentials(decode_utf8(bs)))
            } else {
                Option::None
            },
            Option::None => Option::None,
        },
        Option::None => Option::None,
    }
}

/// Get registry credentials from the bytes of a docker-style JSON config
/// file: the `auth` entry under the index, with `docker.io` special-cased
/// to the legacy index URL.
pub fn get_credentials(bytes: &Vec<u8>, index: &str) -> (r: Result<
    (Option<String>, Option<String>),
    Error,
>)
    ensures
        match r {
            Ok(up) => spec_config_credentials(bytes@, index@) matches Some(sp) && (match up.0 {
                Some(u) => sp.0 == Option::Some(u@),
                None => sp.0 is None,
            }) && (match up.1 {
                Some(p) => sp.1 == Option::Some(p@),
                None => sp.1 is None,
            }),
            Err(e) => e is MalformedResponse && spec_config_credentials(bytes@, index@) is None,
        },
{
    let real_index: &str = if strutil::str_eq(index, "docker.io") || strutil::str_eq(
        index,
        "registry-1.docker.io",
    ) {
        "https://index.docker.io/v1/"
    } else {
        index
    };
    let auth_str = match json::auth_entry(bytes.as_slice(), real_index) {
        Some(s) => s,
        None => {
            return Err(Error::MalformedResponse(String::from_str("no auth entry for index")));
        },
    };
    credentials_from_auth(auth_str.as_str())
}

} // verus!
