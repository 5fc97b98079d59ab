//! Trusted byte-level codecs: base64 and UTF-8.

use vstd::prelude::*;
use vstd::utf8::{valid_utf8, decode_utf8};
use base64::Engine;

verus! {

/// Name for what base64 decoding of a string returns: a function of the
/// input alone.
pub uninterp spec fn b64_decode_of(s: Seq<char>) -> Option<Seq<u8>>;

/// Name for what base64 encoding of a string's UTF-8 bytes returns: a
/// function of the input alone.
pub uninterp spec fn b64_of_str(s: Seq<char>) -> Seq<char>;

/// Relies on base64's standard-alphabet `Engine::decode`: the decoded
/// bytes, or failure, depend on the input alone.
#[verifier::external_body]
pub(crate) fn base64_decode(s: &str) -> (r: Option<Vec<u8>>)
    ensures
        match r {
            Some(v) => b64_decode_of(s@) == Some(v@),
            None => b64_decode_of(s@) is None,
        },
{
    base64::engine::general_purpose::STANDARD.decode(s).ok()
}

/// Relies on base64's standard-alphabet `Engine::encode`: the encoding
/// of a string's UTF-8 bytes depends on the input alone.
#[verifier::external_body]
pub(crate) fn base64_encode_str(s: &str) -> (r: String)
    ensures
        r@ == b64_of_str(s@),
{
    base64::engine::general_purpose::STANDARD.encode(s.as_bytes())
}

/// Relies on `String::from_utf8`: succeeds exactly on valid UTF-8, and
/// returns the decoded characters.
#[verifier::external_body]
pub(crate) fn string_from_utf8(b: Vec<u8>) -> (r: Option<String>)
    ensures
        match r {
            Some(s) => valid_utf8(b@) && s@ == decode_utf8(b@),
            None => !valid_utf8(b@),
        },
{
    match String::from_utf8(b) {
        Ok(s) => Some(s),
        Err(_) => None,
    }
}

} // verus!
