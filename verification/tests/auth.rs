use dkregistry::errors::Error;
use dkregistry::http::{HttpResponse, Method};
use dkregistry::v2::auth::AuthAction;
use dkregistry::v2::Client;

fn client_with_creds() -> Client {
    Client::configure()
        .registry("localhost:1234")
        .insecure_registry(true)
        .username(Some("user".to_string()))
        .password(Some("pass".to_string()))
        .build()
        .unwrap()
}

#[test]
fn test_parse_challenge_full() {
    let header = r#"Bearer realm="https://auth.docker.io/token",service="registry.docker.io",scope="repository:library/debian:pull""#;
    let ch = dkregistry::v2::auth::parse_www_authenticate(header).unwrap();
    assert_eq!(ch.realm, "https://auth.docker.io/token");
    assert_eq!(ch.service, Some("registry.docker.io".to_string()));
    assert_eq!(ch.scope, Some("repository:library/debian:pull".to_string()));
}

#[test]
fn test_parse_challenge_spaces_and_escapes() {
    let header = "Bearer realm=\"https://r.example/token\", service=\"re\\\"g\"";
    let ch = dkregistry::v2::auth::parse_www_authenticate(header).unwrap();
    assert_eq!(ch.realm, "https://r.example/token");
    assert_eq!(ch.service, Some("re\"g".to_string()));
    assert_eq!(ch.scope, None);
}

#[test]
fn test_parse_challenge_unquoted_value() {
    let header = "Bearer realm=https://r.example/token,service=reg";
    let ch = dkregistry::v2::auth::parse_www_authenticate(header).unwrap();
    assert_eq!(ch.realm, "https://r.example/token");
    assert_eq!(ch.service, Some("reg".to_string()));
}

#[test]
fn test_parse_challenge_rejects_other_scheme() {
    let res = dkregistry::v2::auth::parse_www_authenticate("Basic realm=\"x\"");
    assert!(matches!(res.unwrap_err(), Error::Auth(_)));
}

#[test]
fn test_parse_challenge_needs_realm() {
    let res = dkregistry::v2::auth::parse_www_authenticate("Bearer service=\"x\"");
    assert!(matches!(res.unwrap_err(), Error::Auth(_)));
}

#[test]
fn test_token_request_composition() {
    let dclient = client_with_creds();
    let ch = dkregistry::v2::auth::Challenge {
        realm: "https://auth.example/token".to_string(),
        service: Some("svc".to_string()),
        scope: Some("echoed".to_string()),
    };

    // The caller's scope takes precedence over the echoed one.
    let req = dclient.token_request(&ch, Some("repository:library/debian:pull"));
    assert_eq!(req.method, Method::Get);
    assert_eq!(
        req.url,
        "https://auth.example/token?service=svc&scope=repository:library/debian:pull"
    );

    // "user:pass" in base64 is dXNlcjpwYXNz.
    let authz = req
        .headers
        .iter()
        .find(|h| h.0 == "authorization")
        .map(|h| h.1.clone());
    assert_eq!(authz, Some("Basic dXNlcjpwYXNz".to_string()));

    // Without a requested scope the echoed one is used.
    let req2 = dclient.token_request(&ch, None);
    assert_eq!(req2.url, "https://auth.example/token?service=svc&scope=echoed");
}

#[test]
fn test_auth_step_dispatch() {
    let ok = HttpResponse { status: 200, headers: vec![], body: vec![] };
    let r = client_with_creds().auth_step(None, &ok).unwrap();
    assert!(matches!(r, AuthAction::Authenticated(_)));

    let gone = HttpResponse { status: 404, headers: vec![], body: vec![] };
    assert_eq!(
        client_with_creds().auth_step(None, &gone).unwrap_err(),
        Error::UnsupportedV2
    );

    let challenge = HttpResponse {
        status: 401,
        headers: vec![(
            "Www-Authenticate".to_string(),
            r#"Bearer realm="https://auth.example/token",service="svc""#.to_string(),
        )],
        body: vec![],
    };
    let action = client_with_creds()
        .auth_step(Some("repository:img:pull"), &challenge)
        .unwrap();
    match action {
        AuthAction::Exchange(req) => {
            assert_eq!(
                req.url,
                "https://auth.example/token?service=svc&scope=repository:img:pull"
            );
        }
        other => panic!("expected an exchange request, got {:?}", other),
    }

    let bare_401 = HttpResponse { status: 401, headers: vec![], body: vec![] };
    assert!(matches!(
        client_with_creds().auth_step(None, &bare_401).unwrap_err(),
        Error::Auth(_)
    ));
}

#[test]
fn test_choose_token_prefers_token() {
    let t = Client::choose_token(Some("a".to_string()), Some("b".to_string())).unwrap();
    assert_eq!(t, "a");
    let t = Client::choose_token(None, Some("b".to_string())).unwrap();
    assert_eq!(t, "b");
    assert!(matches!(
        Client::choose_token(None, None).unwrap_err(),
        Error::Auth(_)
    ));
}

#[test]
fn test_handle_token_response() {
    let body = r#"{"token": "primary", "access_token": "secondary", "expires_in": 300}"#;
    let resp = HttpResponse {
        status: 200,
        headers: vec![],
        body: body.as_bytes().to_vec(),
    };
    let c = client_with_creds().handle_token_response(&resp).unwrap();
    assert_eq!(c.token, Some("primary".to_string()));
    assert_eq!(c.index, "localhost:1234");

    // The cached token is sent as a bearer header afterwards.
    let req = c.v2_request();
    let authz = req
        .headers
        .iter()
        .find(|h| h.0 == "authorization")
        .map(|h| h.1.clone());
    assert_eq!(authz, Some("Bearer primary".to_string()));
}

#[test]
fn test_handle_token_response_fallback_and_failure() {
    let fallback = HttpResponse {
        status: 200,
        headers: vec![],
        body: br#"{"access_token": "secondary"}"#.to_vec(),
    };
    let c = client_with_creds().handle_token_response(&fallback).unwrap();
    assert_eq!(c.token, Some("secondary".to_string()));

    let empty = HttpResponse {
        status: 200,
        headers: vec![],
        body: br#"{"expires_in": 300}"#.to_vec(),
    };
    assert!(matches!(
        client_with_creds().handle_token_response(&empty).unwrap_err(),
        Error::Auth(_)
    ));

    let denied = HttpResponse { status: 403, headers: vec![], body: vec![] };
    assert!(matches!(
        client_with_creds().handle_token_response(&denied).unwrap_err(),
        Error::Auth(_)
    ));
}
