//! Manifest media types and their `Content-Type` strings.

use vstd::prelude::*;
use crate::strutil;

verus! {

/// The manifest media types the codec recognizes.
#[derive(Debug, Clone, Copy, PartialEq, Eq, Structural)]
pub enum MediaTypes {
    /// `application/vnd.docker.distribution.manifest.v1+prettyjws`
    ManifestV2S1Signed,
    /// `application/vnd.docker.distribution.manifest.v2+json`
    ManifestV2S2,
    /// `application/vnd.docker.distribution.manifest.list.v2+json`
    ManifestList,
}

/// The exact wire string of a media type.
pub open spec fn spec_media_type_name(m: MediaTypes) -> Seq<char> {
    match m {
        MediaTypes::ManifestV2S1Signed => "application/vnd.docker.distribution.manifest.v1+prettyjws"@,
        MediaTypes::ManifestV2S2 => "application/vnd.docker.distribution.manifest.v2+json"@,
        MediaTypes::ManifestList => "application/vnd.docker.distribution.manifest.list.v2+json"@,
    }
}

/// The media type a `Content-Type` value names, if recognized.
pub open spec fn spec_media_type(ct: Seq<char>) -> Option<MediaTypes> {
    if ct == spec_media_type_name(MediaTypes::ManifestV2S1Signed) {
        Some(MediaTypes::ManifestV2S1Signed)
    } else if ct == spec_media_type_name(MediaTypes::ManifestV2S2) {
        Some(MediaTypes::ManifestV2S2)
    } else if ct == spec_media_type_name(MediaTypes::ManifestList) {
        Some(MediaTypes::ManifestList)
    } else {
        None
    }
}

impl MediaTypes {
    /// The wire string of this media type.
    pub fn name(&self) -> (r: String)
        ensures
            r@ == spec_media_type_name(*self),
    {
        match self {
            MediaTypes::ManifestV2S1Signed => String::from_str(
                "application/vnd.docker.distribution.manifest.v1+prettyjws",
            ),
            MediaTypes::ManifestV2S2 => String::from_str(
                "application/vnd.docker.distribution.manifest.v2+json",
            ),
            MediaTypes::ManifestList => String::from_str(
                "application/vnd.docker.distribution.manifest.list.v2+json",
            ),
        }
    }

    /// Recognize a `Content-Type` value.
    pub fn from_content_type(ct: &str) -> (r: Option<MediaTypes>)
        ensures
            r == spec_media_type(ct@),
    {
        if strutil::str_eq(ct, "application/vnd.docker.distribution.manifest.v1+prettyjws") {
            Some(MediaTypes::ManifestV2S1Signed)
        } else if strutil::str_eq(ct, "application/vnd.docker.distribution.manifest.v2+json") {
            Some(MediaTypes::ManifestV2S2)
        } else if strutil::str_eq(ct, "application/vnd.docker.distribution.manifest.list.v2+json") {
            Some(MediaTypes::ManifestList)
        } else {
            None
        }
    }
}

} // verus!
