use dkregistry::errors::Error;
use dkregistry::v2::Client;

// {"auths": {"quay.io": {"auth": base64("user:pass")}}}
fn config_json(index: &str, auth: &str) -> Vec<u8> {
    format!(
        r#"{{"auths": {{"{}": {{"auth": "{}"}}}}}}"#,
        index, auth
    )
    .into_bytes()
}

#[test]
fn test_get_credentials_plain() {
    // "user:pass" in base64.
    let cfg = config_json("quay.io", "dXNlcjpwYXNz");
    let creds = dkregistry::get_credentials(&cfg, "quay.io").unwrap();
    assert_eq!(creds.0, Some("user".to_string()));
    assert_eq!(creds.1, Some("pass".to_string()));
}

#[test]
fn test_get_credentials_dockerio_special_case() {
    // docker.io is keyed by the legacy index URL in config files.
    let cfg = config_json("https://index.docker.io/v1/", "dXNlcjpwYXNz");
    for index in ["docker.io", "registry-1.docker.io"] {
        let creds = dkregistry::get_credentials(&cfg, index).unwrap();
        assert_eq!(creds.0, Some("user".to_string()));
    }
}

#[test]
fn test_get_credentials_missing_index() {
    let cfg = config_json("quay.io", "dXNlcjpwYXNz");
    let res = dkregistry::get_credentials(&cfg, "gcr.io");
    assert!(matches!(res.unwrap_err(), Error::MalformedResponse(_)));
}

#[test]
fn test_get_credentials_bad_json() {
    let res = dkregistry::get_credentials(&b"not json".to_vec(), "quay.io");
    assert!(matches!(res.unwrap_err(), Error::MalformedResponse(_)));
}

#[test]
fn test_get_credentials_bad_base64() {
    let cfg = config_json("quay.io", "!!!not-base64!!!");
    let res = dkregistry::get_credentials(&cfg, "quay.io");
    assert!(matches!(res.unwrap_err(), Error::MalformedResponse(_)));
}

#[test]
fn test_split_credentials_normalization() {
    // An empty side is normalized to absent.
    assert_eq!(
        dkregistry::split_credentials("user:pass"),
        (Some("user".to_string()), Some("pass".to_string()))
    );
    assert_eq!(
        dkregistry::split_credentials(":pass"),
        (None, Some("pass".to_string()))
    );
    assert_eq!(
        dkregistry::split_credentials("user:"),
        (Some("user".to_string()), None)
    );
    // Empty on both sides: nothing usable remains.
    assert_eq!(dkregistry::split_credentials(":"), (None, None));
    // Without a colon there are no usable credentials at all.
    assert_eq!(dkregistry::split_credentials("userpass"), (None, None));
    // Only the first colon splits.
    assert_eq!(
        dkregistry::split_credentials("user:pa:ss"),
        (Some("user".to_string()), Some("pa:ss".to_string()))
    );
}

#[test]
fn test_read_credentials_on_config() {
    let cfg = config_json("quay.io", "dXNlcjpwYXNz");
    let config = Client::configure()
        .registry("quay.io")
        .read_credentials(&cfg);
    let client = config.build().unwrap();
    assert_eq!(
        client.credentials,
        Some(("user".to_string(), "pass".to_string()))
    );
}

#[test]
fn test_read_credentials_keeps_prior_on_failure() {
    let cfg = b"not json".to_vec();
    let config = Client::configure()
        .registry("quay.io")
        .username(Some("old".to_string()))
        .read_credentials(&cfg);
    let client = config.build().unwrap();
    assert_eq!(client.credentials, Some(("old".to_string(), String::new())));
}

#[test]
fn test_build_credentials_normalization() {
    // One present side keeps a pair with the other side empty.
    let client = Client::configure()
        .registry("quay.io")
        .username(Some("user".to_string()))
        .password(None)
        .build()
        .unwrap();
    assert_eq!(client.credentials, Some(("user".to_string(), String::new())));

    let client = Client::configure()
        .registry("quay.io")
        .username(None)
        .password(None)
        .build()
        .unwrap();
    assert_eq!(client.credentials, None);
    assert_eq!(client.token, None);
    assert_eq!(client.base_url, "https://quay.io");
}
