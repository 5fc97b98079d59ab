use dkregistry::errors::Error;
use dkregistry::http::HttpResponse;
use dkregistry::mediatypes::MediaTypes;
use dkregistry::v2::manifest::Manifest;
use dkregistry::v2::Client;

static MT_S1: &'static str = "application/vnd.docker.distribution.manifest.v1+prettyjws";
static MT_S2: &'static str = "application/vnd.docker.distribution.manifest.v2+json";
static MT_LIST: &'static str = "application/vnd.docker.distribution.manifest.list.v2+json";

fn client() -> Client {
    Client::configure()
        .registry("localhost:1234")
        .insecure_registry(true)
        .build()
        .unwrap()
}

fn manifest_response(status: u16, content_type: Option<&str>, body: &str) -> HttpResponse {
    let mut headers = Vec::new();
    if let Some(ct) = content_type {
        headers.push(("Content-Type".to_string(), ct.to_string()));
    }
    HttpResponse {
        status,
        headers,
        body: body.as_bytes().to_vec(),
    }
}

static SCHEMA1_BODY: &'static str = r#"{
  "schemaVersion": 1,
  "fsLayers": [
    {"blobSum": "sha256:top"},
    {"blobSum": "sha256:middle"},
    {"blobSum": "sha256:base"}
  ],
  "history": [
    {"v1Compatibility": "{\"config\": {\"Labels\": {\"channel\": \"beta\", \"tier\": \"2\"}}}"}
  ],
  "signatures": []
}"#;

#[test]
fn test_schema1_layers_reversed() {
    let resp = manifest_response(200, Some(MT_S1), SCHEMA1_BODY);
    let manifest = client().get_manifest(&resp).unwrap();
    match &manifest {
        Manifest::S1Signed(m) => {
            let layers = m.get_layers();
            // Reversal law: as many layers as fsLayers, base-first.
            assert_eq!(layers.len(), 3);
            assert_eq!(layers[0], "sha256:base");
            assert_eq!(layers[2], "sha256:top");
        }
        other => panic!("expected schema 1, got {:?}", other),
    }
    let layers = manifest.get_layers().unwrap();
    assert_eq!(layers, vec!["sha256:base", "sha256:middle", "sha256:top"]);
}

#[test]
fn test_schema1_labels() {
    let resp = manifest_response(200, Some(MT_S1), SCHEMA1_BODY);
    let manifest = client().get_manifest(&resp).unwrap();
    let m = match manifest {
        Manifest::S1Signed(m) => m,
        other => panic!("expected schema 1, got {:?}", other),
    };
    let mut labels = m.get_labels(0).unwrap();
    labels.sort();
    assert_eq!(
        labels,
        vec![
            ("channel".to_string(), "beta".to_string()),
            ("tier".to_string(), "2".to_string())
        ]
    );
    // Out-of-range history indices are absent.
    assert!(m.get_labels(1).is_none());
}

#[test]
fn test_schema2_layers_in_order() {
    let body = r#"{
      "schemaVersion": 2,
      "config": {"mediaType": "application/vnd.docker.container.image.v1+json",
                 "digest": "sha256:cfg", "size": 7023},
      "layers": [
        {"digest": "sha256:l1", "size": 1},
        {"digest": "sha256:l2", "size": 2}
      ]
    }"#;
    let resp = manifest_response(200, Some(MT_S2), body);
    let manifest = client().get_manifest(&resp).unwrap();
    match &manifest {
        Manifest::S2(m) => {
            assert_eq!(m.config.digest, "sha256:cfg");
            assert_eq!(m.config.size, Some(7023));
            let layers = m.get_layers();
            assert_eq!(layers, vec!["sha256:l1", "sha256:l2"]);
        }
        other => panic!("expected schema 2, got {:?}", other),
    }
}

#[test]
fn test_manifest_list() {
    let body = r#"{
      "schemaVersion": 2,
      "manifests": [
        {"digest": "sha256:amd", "platform": {"os": "linux", "architecture": "amd64"}},
        {"digest": "sha256:arm", "platform": {"os": "linux", "architecture": "arm64"}}
      ]
    }"#;
    let resp = manifest_response(200, Some(MT_LIST), body);
    let manifest = client().get_manifest(&resp).unwrap();
    match &manifest {
        Manifest::List(l) => {
            assert_eq!(l.manifests.len(), 2);
            assert_eq!(l.manifests[0].digest, "sha256:amd");
            assert_eq!(l.manifests[1].architecture, Some("arm64".to_string()));
        }
        other => panic!("expected a manifest list, got {:?}", other),
    }
    // A list has no layers of its own.
    assert!(manifest.get_layers().is_err());
}

#[test]
fn test_manifest_unknown_media_type() {
    let resp = manifest_response(200, Some("application/json"), "{}");
    assert_eq!(client().get_manifest(&resp).unwrap_err(), Error::UnknownMediaType);
}

#[test]
fn test_manifest_schema_version_fallback() {
    let resp = manifest_response(200, None, SCHEMA1_BODY);
    let manifest = client().get_manifest(&resp).unwrap();
    assert!(matches!(manifest, Manifest::S1Signed(_)));
}

#[test]
fn test_has_manifest_dispatch() {
    let c = client();
    let ok = manifest_response(200, Some(MT_S2), "");
    assert_eq!(c.has_manifest(&ok).unwrap(), Some(MediaTypes::ManifestV2S2));

    let unknown = manifest_response(200, Some("text/plain"), "");
    assert_eq!(c.has_manifest(&unknown).unwrap(), None);

    let missing = manifest_response(404, None, "");
    assert_eq!(c.has_manifest(&missing).unwrap(), None);

    let broken = manifest_response(500, None, "");
    assert_eq!(c.has_manifest(&broken).unwrap_err(), Error::ServerError(500));
}

#[test]
fn test_manifest_request_headers() {
    let c = client();
    let req = c.manifest_request("library/debian", "latest");
    assert_eq!(
        req.url,
        "http://localhost:1234/v2/library/debian/manifests/latest"
    );
    let accept = req
        .headers
        .iter()
        .find(|h| h.0 == "accept")
        .map(|h| h.1.clone())
        .unwrap();
    assert_eq!(accept, format!("{},{},{}", MT_S1, MT_S2, MT_LIST));
}

#[test]
fn test_media_type_names_round_trip() {
    for mt in [
        MediaTypes::ManifestV2S1Signed,
        MediaTypes::ManifestV2S2,
        MediaTypes::ManifestList,
    ] {
        assert_eq!(MediaTypes::from_content_type(&mt.name()), Some(mt));
    }
    assert_eq!(MediaTypes::from_content_type("text/plain"), None);
}
