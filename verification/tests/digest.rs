use dkregistry::errors::Error;
use dkregistry::http::HttpResponse;
use dkregistry::v2::{Client, ContentDigest};

// The sha256 digest of the empty input, a fixed point of the algorithm.
static EMPTY_SHA256: &'static str =
    "sha256:e3b0c44298fc1c149afbf4c8996fb92427ae41e4649b934ca495991b7852b855";

#[test]
fn test_digest_parse_round_trip() {
    let parsed = ContentDigest::try_new(EMPTY_SHA256).unwrap();
    assert_eq!(parsed.to_string(), EMPTY_SHA256);
}

#[test]
fn test_digest_parse_rejects_bad_inputs() {
    // Unknown algorithm.
    assert!(ContentDigest::try_new("md5:aaaa").is_err());
    // No colon at all.
    assert!(ContentDigest::try_new("sha256").is_err());
    // Hex of the wrong length.
    assert!(ContentDigest::try_new("sha256:abcd").is_err());
    // Upper-case hex is refused.
    let upper = EMPTY_SHA256.to_uppercase();
    assert!(ContentDigest::try_new(&upper).is_err());
    // A non-hex character.
    let bad = EMPTY_SHA256.replace('e', "g");
    assert!(ContentDigest::try_new(&bad).is_err());
}

#[test]
fn test_digest_parse_sha512() {
    let d = format!("sha512:{}", "0".repeat(128));
    let parsed = ContentDigest::try_new(&d).unwrap();
    assert_eq!(parsed.to_string(), d);
}

#[test]
fn test_digest_of_empty_buffer() {
    let d = ContentDigest::of(b"");
    assert_eq!(d.to_string(), EMPTY_SHA256);
}

#[test]
fn test_sha512_digest_verifies() {
    // The sha512 digest of the empty input.
    let d = "sha512:cf83e1357eefb8bdf1542850d66d8007d620e4050b5715dc83f4a921d36ce9ce47d0d13c5d85f2b0ff8318d2877eec2f63b931bd47417a81a538327af927da3e";
    let parsed = ContentDigest::try_new(d).unwrap();
    assert!(parsed.try_verify(b"").is_ok());
    assert!(matches!(
        parsed.try_verify(b"x").unwrap_err(),
        Error::DigestMismatch(_, _)
    ));
}

#[test]
fn test_own_digest_verifies() {
    let bufs: [&[u8]; 3] = [b"", b"hello world", b"\x00\xff\x10"];
    for b in bufs {
        let d = ContentDigest::of(b);
        assert!(d.try_verify(b).is_ok());
    }
}

#[test]
fn test_appended_byte_mismatches() {
    let b = b"hello world".to_vec();
    let d = ContentDigest::of(&b);
    let mut longer = b.clone();
    longer.push(0x78);
    let res = d.try_verify(&longer);
    assert!(matches!(res.unwrap_err(), Error::DigestMismatch(_, _)));
}

#[test]
fn test_blob_digest_mismatch() {
    let digest = format!("sha256:{}", "a".repeat(64));
    let addr = "localhost:1234";
    let dclient = Client::configure()
        .registry(addr)
        .insecure_registry(true)
        .build()
        .unwrap();

    let (cd, req) = dclient.get_blob_request("repo", &digest).unwrap();
    assert_eq!(
        req.url,
        format!("http://{}/v2/repo/blobs/{}", addr, digest)
    );

    // The served bytes hash to something else than the requested digest.
    let resp = HttpResponse {
        status: 200,
        headers: vec![],
        body: b"not the right bytes".to_vec(),
    };
    let res = dclient.get_blob(&cd, &resp);
    assert!(matches!(res.unwrap_err(), Error::DigestMismatch(_, _)));
}

#[test]
fn test_blob_fetch_verified() {
    let body = b"layer bytes".to_vec();
    let digest = ContentDigest::of(&body).to_string();
    let addr = "localhost:1234";
    let dclient = Client::configure()
        .registry(addr)
        .insecure_registry(true)
        .build()
        .unwrap();

    let (cd, _req) = dclient.get_blob_request("repo", &digest).unwrap();
    let resp = HttpResponse {
        status: 200,
        headers: vec![],
        body: body.clone(),
    };
    assert_eq!(dclient.get_blob(&cd, &resp).unwrap(), body);
}

#[test]
fn test_blob_client_error_keeps_body() {
    let digest = format!("sha256:{}", "a".repeat(64));
    let dclient = Client::configure()
        .registry("localhost:1234")
        .insecure_registry(true)
        .build()
        .unwrap();
    let (cd, _req) = dclient.get_blob_request("repo", &digest).unwrap();
    let resp = HttpResponse {
        status: 404,
        headers: vec![],
        body: b"missing".to_vec(),
    };
    assert_eq!(
        dclient.get_blob(&cd, &resp).unwrap_err(),
        Error::ClientError(404, b"missing".to_vec())
    );
}

#[test]
fn test_has_blob() {
    let dclient = Client::configure()
        .registry("localhost:1234")
        .insecure_registry(true)
        .build()
        .unwrap();
    let ok = HttpResponse { status: 200, headers: vec![], body: vec![] };
    let gone = HttpResponse { status: 404, headers: vec![], body: vec![] };
    assert!(dclient.has_blob(&ok));
    assert!(!dclient.has_blob(&gone));
}
