//! Trusted decoders for the JSON documents the registry serves.
//!
//! Each decoder reads one document shape through serde_json and hands
//! back plain values.  What a decoder extracts is a function of the
//! input bytes alone, so each result bears a name that the decoder's
//! contract applies; the callers' own contracts are stated over these
//! names, and every decision on the extracted values is verified.

use vstd::prelude::*;
use crate::strutil::{strs_view, pairs_view, opt_str_view};
use crate::v2::manifest::{Descriptor, PlatformEntry, ManifestList, descriptor_view,
    descriptors_view, platforms_view};

verus! {

/// Name for the `tags` array of strings of a JSON document: a function
/// of the bytes alone.
pub uninterp spec fn tags_of(b: Seq<u8>) -> Option<Seq<Seq<char>>>;

/// Name for the `repositories` array of strings of a JSON document.
pub uninterp spec fn catalog_of(b: Seq<u8>) -> Option<Seq<Seq<char>>>;

/// Name for the `token` and `access_token` string fields of a JSON
/// document; absent when the bytes are not a JSON object.
pub uninterp spec fn token_fields_of(b: Seq<u8>) -> Option<(Option<Seq<char>>, Option<Seq<char>>)>;

/// Name for the `auths.<key>.auth` string of a JSON credentials file.
pub uninterp spec fn auth_entry_of(b: Seq<u8>, key: Seq<char>) -> Option<Seq<char>>;

/// Name for the `config.Labels` string-to-string object of a JSON text.
pub uninterp spec fn labels_of(s: Seq<char>) -> Option<Seq<(Seq<char>, Seq<char>)>>;

/// Name for the `fsLayers[*].blobSum` strings of a schema 1 manifest.
pub uninterp spec fn schema1_layers_of(b: Seq<u8>) -> Option<Seq<Seq<char>>>;

/// Name for the `history[*].v1Compatibility` strings of a schema 1
/// manifest.
pub uninterp spec fn schema1_history_of(b: Seq<u8>) -> Option<Seq<Seq<char>>>;

/// Name for the `config` descriptor of a schema 2 manifest: digest,
/// media type and size.
pub uninterp spec fn schema2_config_of(b: Seq<u8>) -> Option<
    (Seq<char>, Option<Seq<char>>, Option<u64>),
>;

/// Name for the `layers` descriptors of a schema 2 manifest, in order.
pub uninterp spec fn schema2_layers_of(b: Seq<u8>) -> Option<
    Seq<(Seq<char>, Option<Seq<char>>, Option<u64>)>,
>;

/// Name for the `manifests` entries of a manifest list: digest,
/// platform os and architecture, in order.
pub uninterp spec fn list_of(b: Seq<u8>) -> Option<
    Seq<(Seq<char>, Option<Seq<char>>, Option<Seq<char>>)>,
>;

/// Name for the `schemaVersion` number of a JSON document.
pub uninterp spec fn schema_version_of(b: Seq<u8>) -> Option<u64>;

/// Relies on serde_json (`from_slice`, `Value::get`, `Value::as_array`,
/// `Value::as_str`): the `tags` strings of the document, in order.
#[verifier::external_body]
pub(crate) fn parse_tags_body(b: &[u8]) -> (r: Option<Vec<String>>)
    ensures
        match r {
            Some(ts) => tags_of(b@) == Option::Some(strs_view(ts@)),
            None => tags_of(b@) is None,
        },
{
    let doc: serde_json::Value = serde_json::from_slice(b).ok()?;
    doc.get("tags")?.as_array()?.iter().map(|e| e.as_str().map(String::from)).collect()
}

/// Relies on serde_json (`from_slice`, `Value::get`, `Value::as_array`,
/// `Value::as_str`): the `repositories` strings of the document.
#[verifier::external_body]
pub(crate) fn parse_catalog_body(b: &[u8]) -> (r: Option<Vec<String>>)
    ensures
        match r {
            Some(rs) => catalog_of(b@) == Option::Some(strs_view(rs@)),
            None => catalog_of(b@) is None,
        },
{
    let doc: serde_json::Value = serde_json::from_slice(b).ok()?;
    doc.get("repositories")?.as_array()?.iter().map(|e| e.as_str().map(String::from)).collect()
}

/// Relies on serde_json (`from_slice`, `Value::get`, `Value::as_str`):
/// the `token` and `access_token` strings of the document, each absent
/// when missing or not a string.
#[verifier::external_body]
pub(crate) fn parse_token_body(b: &[u8]) -> (r: Option<(Option<String>, Option<String>)>)
    ensures
        match r {
            Some(tf) => token_fields_of(b@) == Option::Some(
                (opt_str_view(tf.0), opt_str_view(tf.1)),
            ),
            None => token_fields_of(b@) is None,
        },
{
    let doc: serde_json::Value = serde_json::from_slice(b).ok()?;
    let token = doc.get("token").and_then(|v| v.as_str()).map(String::from);
    let access = doc.get("access_token").and_then(|v| v.as_str()).map(String::from);
    Some((token, access))
}

/// Relies on serde_json (`from_slice`, `Value::get`, `Value::as_str`):
/// the `auths.<key>.auth` string of a credentials file.
#[verifier::external_body]
pub(crate) fn auth_entry(b: &[u8], key: &str) -> (r: Option<String>)
    ensures
        match r {
            Some(a) => auth_entry_of(b@, key@) == Option::Some(a@),
            None => auth_entry_of(b@, key@) is None,
        },
{
    let doc: serde_json::Value = serde_json::from_slice(b).ok()?;
    doc.get("auths")?.get(key)?.get("auth")?.as_str().map(String::from)
}

/// Relies on serde_json (`from_str`, `Value::get`, `Value::as_object`,
/// `Value::as_str`): the `config.Labels` entries of a JSON text, in the
/// order the map yields them (a function of the document alone).
#[verifier::external_body]
pub(crate) fn parse_labels(s: &str) -> (r: Option<Vec<(String, String)>>)
    ensures
        match r {
            Some(ls) => labels_of(s@) == Option::Some(pairs_view(ls@)),
            None => labels_of(s@) is None,
        },
{
    let doc: serde_json::Value = serde_json::from_str(s).ok()?;
    let labels = doc.get("config")?.get("Labels")?.as_object()?;
    labels.iter().map(
        |e| e.1.as_str().map(|v| (e.0.clone(), v.to_string())),
    ).collect()
}

/// Relies on serde_json (`from_slice`, `Value::get`, `Value::as_array`,
/// `Value::as_str`): the `fsLayers[*].blobSum` strings, in wire order.
#[verifier::external_body]
pub(crate) fn parse_schema1_layers(b: &[u8]) -> (r: Option<Vec<String>>)
    ensures
        match r {
            Some(ls) => schema1_layers_of(b@) == Option::Some(strs_view(ls@)),
            None => schema1_layers_of(b@) is None,
        },
{
    let doc: serde_json::Value = serde_json::from_slice(b).ok()?;
    doc.get("fsLayers")?.as_array()?.iter().map(
        |e| e.get("blobSum").and_then(|v| v.as_str()).map(String::from),
    ).collect()
}

/// Relies on serde_json (`from_slice`, `Value::get`, `Value::as_array`,
/// `Value::as_str`): the `history[*].v1Compatibility` strings, in order.
#[verifier::external_body]
pub(crate) fn parse_schema1_history(b: &[u8]) -> (r: Option<Vec<String>>)
    ensures
        match r {
            Some(hs) => schema1_history_of(b@) == Option::Some(strs_view(hs@)),
            None => schema1_history_of(b@) is None,
        },
{
    let doc: serde_json::Value = serde_json::from_slice(b).ok()?;
    doc.get("history")?.as_array()?.iter().map(
        |e| e.get("v1Compatibility").and_then(|v| v.as_str()).map(String::from),
    ).collect()
}

/// Relies on serde_json (`from_slice`, `Value::get`, `Value::as_str`,
/// `Value::as_u64`): the `config` descriptor of a schema 2 manifest.
#[verifier::external_body]
pub(crate) fn parse_schema2_config(b: &[u8]) -> (r: Option<Descriptor>)
    ensures
        match r {
            Some(d) => schema2_config_of(b@) == Option::Some(descriptor_view(d)),
            None => schema2_config_of(b@) is None,
        },
{
    let doc: serde_json::Value = serde_json::from_slice(b).ok()?;
    let c = doc.get("config")?;
    Some(Descriptor {
        digest: c.get("digest")?.as_str()?.to_string(),
        media_type: c.get("mediaType").and_then(|v| v.as_str()).map(String::from),
        size: c.get("size").and_then(|v| v.as_u64()),
    })
}

/// Relies on serde_json (`from_slice`, `Value::get`, `Value::as_array`,
/// `Value::as_str`, `Value::as_u64`): the `layers` descriptors of a
/// schema 2 manifest, in order.
#[verifier::external_body]
pub(crate) fn parse_schema2_layers(b: &[u8]) -> (r: Option<Vec<Descriptor>>)
    ensures
        match r {
            Some(ls) => schema2_layers_of(b@) == Option::Some(descriptors_view(ls@)),
            None => schema2_layers_of(b@) is None,
        },
{
    let doc: serde_json::Value = serde_json::from_slice(b).ok()?;
    doc.get("layers")?.as_array()?.iter().map(
        |e| {
            Some(Descriptor {
                digest: e.get("digest")?.as_str()?.to_string(),
                media_type: e.get("mediaType").and_then(|v| v.as_str()).map(String::from),
                size: e.get("size").and_then(|v| v.as_u64()),
            })
        },
    ).collect()
}

/// Relies on serde_json (`from_slice`, `Value::get`, `Value::as_array`,
/// `Value::as_str`): the `manifests` entries of a manifest list.
#[verifier::external_body]
pub(crate) fn parse_list_body(b: &[u8]) -> (r: Option<ManifestList>)
    ensures
        match r {
            Some(l) => list_of(b@) == Option::Some(platforms_view(l.manifests@)),
            None => list_of(b@) is None,
        },
{
    let doc: serde_json::Value = serde_json::from_slice(b).ok()?;
    let entries = doc.get("manifests")?.as_array()?.iter().map(
        |e| {
            let p = e.get("platform");
            Some(PlatformEntry {
                digest: e.get("digest")?.as_str()?.to_string(),
                os: p.and_then(|p| p.get("os")).and_then(|v| v.as_str()).map(String::from),
                architecture: p.and_then(|p| p.get("architecture")).and_then(|v| v.as_str()).map(
                    String::from,
                ),
            })
        },
    ).collect::<Option<Vec<PlatformEntry>>>()?;
    Some(ManifestList { manifests: entries })
}

/// Relies on serde_json (`from_slice`, `Value::get`, `Value::as_u64`):
/// the `schemaVersion` number of the document.
#[verifier::external_body]
pub(crate) fn parse_schema_version(b: &[u8]) -> (r: Option<u64>)
    ensures
        match r {
            Some(v) => schema_version_of(b@) == Option::Some(v),
            None => schema_version_of(b@) is None,
        },
{
    let doc: serde_json::Value = serde_json::from_slice(b).ok()?;
    doc.get("schemaVersion")?.as_u64()
}

} // verus!
