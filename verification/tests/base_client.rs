use dkregistry::http::{HttpResponse, Method};
use dkregistry::v2::Client;

static API_VERSION_K: &'static str = "Docker-Distribution-API-Version";
static API_VERSION_V: &'static str = "registry/2.0";

fn probe_response(status: u16, with_header: bool) -> HttpResponse {
    let mut headers = Vec::new();
    if with_header {
        headers.push((API_VERSION_K.to_string(), API_VERSION_V.to_string()));
    }
    HttpResponse {
        status,
        headers,
        body: Vec::new(),
    }
}

#[test]
fn test_base_no_insecure() {
    let addr = "127.0.0.1:1234".replace("127.0.0.1", "localhost");
    let dclient = Client::configure()
        .registry(&addr)
        .insecure_registry(false)
        .username(None)
        .password(None)
        .build()
        .unwrap();

    // A secure client speaks TLS: the probe goes to an https URL.
    let req = dclient.v2_request();
    assert_eq!(req.method, Method::Get);
    assert_eq!(req.url, format!("https://{}/v2/", addr));
}

#[test]
fn test_base_useragent() {
    let addr = "127.0.0.1:1234".replace("127.0.0.1", "localhost");
    let dclient = Client::configure()
        .registry(&addr)
        .insecure_registry(true)
        .username(None)
        .password(None)
        .build()
        .unwrap();

    let req = dclient.v2_request();
    let ua = req
        .headers
        .iter()
        .find(|h| h.0 == "user-agent")
        .map(|h| h.1.clone());
    assert_eq!(ua, Some(dkregistry::user_agent_default()));

    let res = dclient.is_v2_supported(&probe_response(200, true));
    assert_eq!(res, true);
}

#[test]
fn test_base_custom_useragent() {
    let ua = "custom-ua/1.0";

    let addr = "127.0.0.1:1234".replace("127.0.0.1", "localhost");
    let dclient = Client::configure()
        .registry(&addr)
        .insecure_registry(true)
        .user_agent(Some(ua.to_string()))
        .username(None)
        .password(None)
        .build()
        .unwrap();

    let req = dclient.v2_request();
    let sent = req
        .headers
        .iter()
        .find(|h| h.0 == "user-agent")
        .map(|h| h.1.clone());
    assert_eq!(sent, Some(ua.to_string()));

    let res = dclient.is_v2_supported(&probe_response(200, true));
    assert_eq!(res, true);
}

#[test]
fn test_base_no_useragent() {
    let addr = "127.0.0.1:1234".replace("127.0.0.1", "localhost");
    let dclient = Client::configure()
        .registry(&addr)
        .insecure_registry(true)
        .user_agent(None)
        .username(None)
        .password(None)
        .build()
        .unwrap();

    let req = dclient.v2_request();
    assert!(req.headers.iter().all(|h| h.0 != "user-agent"));

    let res = dclient.is_v2_supported(&probe_response(200, true));
    assert_eq!(res, true);
}

#[test]
fn test_v2_probe_success() {
    let dclient = Client::configure()
        .registry("localhost:1234")
        .insecure_registry(true)
        .build()
        .unwrap();
    assert_eq!(dclient.is_v2_supported(&probe_response(200, true)), true);
}

#[test]
fn test_v2_probe_via_401() {
    let dclient = Client::configure()
        .registry("localhost:1234")
        .insecure_registry(true)
        .build()
        .unwrap();
    // The version header on 401 is authoritative.
    assert_eq!(dclient.is_v2_supported(&probe_response(401, true)), true);
}

#[test]
fn test_v2_probe_failures() {
    let dclient = Client::configure()
        .registry("localhost:1234")
        .insecure_registry(true)
        .build()
        .unwrap();
    assert_eq!(dclient.is_v2_supported(&probe_response(200, false)), false);
    assert_eq!(dclient.is_v2_supported(&probe_response(404, true)), false);
    let mut wrong = probe_response(200, false);
    wrong
        .headers
        .push((API_VERSION_K.to_string(), "registry/1.0".to_string()));
    assert_eq!(dclient.is_v2_supported(&wrong), false);
}

#[test]
fn test_ensure_v2_registry() {
    let dclient = Client::configure()
        .registry("localhost:1234")
        .insecure_registry(true)
        .build()
        .unwrap();
    let ok = dclient.clone().ensure_v2_registry(&probe_response(200, true));
    assert!(ok.is_ok());
    let err = dclient.ensure_v2_registry(&probe_response(200, false));
    assert_eq!(err.unwrap_err(), dkregistry::errors::Error::UnsupportedV2);
}
