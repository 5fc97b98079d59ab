//! The error sum type shared by every operation of the library.

use vstd::prelude::*;

verus! {

/// One kind for each way a registry interaction can fail.
#[derive(Debug, Clone, PartialEq, Eq)]
pub enum Error {
    /// Underlying HTTP, DNS or TLS failure, with the cause preserved.
    Transport(String),
    /// The `/v2/` probe did not return the expected API version header.
    UnsupportedV2,
    /// Challenge parsing failed, the token exchange failed, or the
    /// authentication scheme is not `Bearer`.
    Auth(String),
    /// JSON decode failure, missing required header, or unparseable URL.
    MalformedResponse(String),
    /// Manifest content type not recognized.
    UnknownMediaType,
    /// HTTP 4xx status, with the response body preserved for inspection.
    ClientError(u16, Vec<u8>),
    /// HTTP 5xx status.
    ServerError(u16),
    /// Blob bytes did not match the expected digest: expected and actual hex.
    DigestMismatch(String, String),
    /// 404 on a resource where absence is a value.
    NotFound,
}

/// The error a response status outside 2xx maps to: 4xx keeps the body,
/// any other unexpected status keeps the status alone.
pub open spec fn is_status_error(e: Error, status: u16, body: Seq<u8>) -> bool {
    if 400 <= status < 500 {
        e matches Error::ClientError(s, b) && s == status && b@ == body
    } else {
        e == Error::ServerError(status)
    }
}

/// Map a non-2xx status to its error.
pub fn status_error(status: u16, body: Vec<u8>) -> (e: Error)
    ensures
        is_status_error(e, status, body@),
{
    if 400 <= status && status < 500 {
        Error::ClientError(status, body)
    } else {
        Error::ServerError(status)
    }
}

} // verus!
