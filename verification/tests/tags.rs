use dkregistry::errors::Error;
use dkregistry::http::HttpResponse;
use dkregistry::v2::Client;

fn client(addr: &str) -> Client {
    Client::configure()
        .registry(addr)
        .insecure_registry(true)
        .username(None)
        .password(None)
        .build()
        .unwrap()
}

fn page_response(status: u16, body: &str, headers: Vec<(String, String)>) -> HttpResponse {
    HttpResponse {
        status,
        headers,
        body: body.as_bytes().to_vec(),
    }
}

#[test]
fn test_tags_simple() {
    let name = "repo";
    let tags = r#"{"name": "repo", "tags": [ "t1", "t2" ]}"#;

    let addr = "127.0.0.1:1234".replace("127.0.0.1", "localhost");
    let dclient = client(&addr);

    let req = dclient.tags_request(name, None);
    assert_eq!(req.url, format!("http://{}/v2/{}/tags/list", addr, name));

    let resp = page_response(
        200,
        tags,
        vec![("Content-Type".to_string(), "application/json".to_string())],
    );
    let page = dclient.get_tags_page(&resp).unwrap();
    assert_eq!(page.tags, vec!["t1", "t2"]);
    assert!(page.next.is_none());
}

#[test]
fn test_tags_paginate() {
    let name = "repo";
    let tags_p1 = r#"{"name": "repo", "tags": [ "t1" ]}"#;
    let tags_p2 = r#"{"name": "repo", "tags": [ "t2" ]}"#;

    let addr = "127.0.0.1:1234".replace("127.0.0.1", "localhost");
    let server_url = format!("http://{}", addr);
    let dclient = client(&addr);

    let req1 = dclient.tags_request(name, Some(1));
    assert_eq!(req1.url, format!("http://{}/v2/{}/tags/list?n=1", addr, name));

    let resp1 = page_response(
        200,
        tags_p1,
        vec![
            (
                "Link".to_string(),
                format!(r#"<{}/v2/_tags?n=1&next_page=t1>; rel="next""#, server_url),
            ),
            ("Content-Type".to_string(), "application/json".to_string()),
        ],
    );
    let page1 = dclient.get_tags_page(&resp1).unwrap();
    let first_tag = page1.tags.first().cloned();
    assert_eq!(first_tag, Some("t1".to_owned()));
    let next = page1.next.expect("first page links a next page");
    assert_eq!(next, format!("{}/v2/_tags?n=1&next_page=t1", server_url));

    let req2 = dclient.tags_next_request(&next);
    assert_eq!(req2.url, next);

    let resp2 = page_response(
        200,
        tags_p2,
        vec![("Content-Type".to_string(), "application/json".to_string())],
    );
    let page2 = dclient.get_tags_page(&resp2).unwrap();
    let second_tag = page2.tags.first().cloned();
    assert_eq!(second_tag, Some("t2".to_owned()));

    let end = page2.next;
    assert_eq!(end, None);
}

#[test]
fn test_tags_404() {
    let addr = "127.0.0.1:1234".replace("127.0.0.1", "localhost");
    let dclient = client(&addr);

    let resp = page_response(
        404,
        "",
        vec![("Content-Type".to_string(), "application/json".to_string())],
    );
    let res = dclient.get_tags_page(&resp);
    assert!(res.is_err());
    assert_eq!(res.unwrap_err(), Error::NotFound);
}

#[test]
fn test_tags_missing_header() {
    let tags = r#"{"name": "repo", "tags": [ "t1", "t2" ]}"#;

    let addr = "127.0.0.1:1234".replace("127.0.0.1", "localhost");
    let dclient = client(&addr);

    let resp = page_response(200, tags, vec![]);
    let res = dclient.get_tags_page(&resp);
    assert!(res.is_err());
    assert!(matches!(res.unwrap_err(), Error::MalformedResponse(_)));
}

#[test]
fn test_tags_relative_link_resolves_against_base() {
    let addr = "localhost:1234";
    let dclient = client(addr);

    let resp = page_response(
        200,
        r#"{"name": "repo", "tags": [ "t1" ]}"#,
        vec![
            (
                "Link".to_string(),
                r#"</v2/repo/tags/list?last=t1&n=1>; rel="next""#.to_string(),
            ),
            ("Content-Type".to_string(), "application/json".to_string()),
        ],
    );
    let page = dclient.get_tags_page(&resp).unwrap();
    assert_eq!(
        page.next,
        Some(format!("http://{}/v2/repo/tags/list?last=t1&n=1", addr))
    );
}

#[test]
fn test_tags_link_without_next_rel_terminates() {
    let addr = "localhost:1234";
    let dclient = client(addr);

    let resp = page_response(
        200,
        r#"{"name": "repo", "tags": [ "t1" ]}"#,
        vec![
            (
                "Link".to_string(),
                r#"</v2/other>; rel="prev""#.to_string(),
            ),
            ("Content-Type".to_string(), "application/json".to_string()),
        ],
    );
    let page = dclient.get_tags_page(&resp).unwrap();
    assert_eq!(page.next, None);
}

#[test]
fn test_tags_server_error() {
    let addr = "localhost:1234";
    let dclient = client(addr);

    let resp = page_response(503, "", vec![]);
    assert_eq!(dclient.get_tags_page(&resp).unwrap_err(), Error::ServerError(503));
}

#[test]
fn test_tags_client_error_carries_body() {
    let addr = "localhost:1234";
    let dclient = client(addr);

    let resp = page_response(403, "denied", vec![]);
    assert_eq!(
        dclient.get_tags_page(&resp).unwrap_err(),
        Error::ClientError(403, b"denied".to_vec())
    );
}
