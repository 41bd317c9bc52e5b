use mirror_query::query::{ErrorKind, ImplQueryImageInterface, ResponseData, ResponseStep};
use mirror_query::query::{next_page_link, request_headers, request_url};

const ACCEPT: &str = "application/vnd.docker.distribution.manifest.list.v2+json,application/vnd.oci.image.index.v1+json,application/vnd.oci.image.manifest.v1+json";

/// Runs the steps of one query against a response given as values.
fn run(
    client: &ImplQueryImageInterface,
    status: u16,
    extract_digest: bool,
    digest: Option<&str>,
    link: Option<&str>,
    body: Result<&str, &str>,
) -> Result<ResponseData, mirror_query::query::QueryError> {
    let step = client.on_response(
        status,
        extract_digest,
        digest.map(String::from),
        link.map(String::from),
    );
    match step {
        ResponseStep::ReadBody(l) => {
            client.on_body(l, body.map(String::from).map_err(String::from))
        }
        ResponseStep::Finished(r) => r,
    }
}

#[test]
fn get_manifest_pass() {
    let url = String::from("http://127.0.0.1:1234");
    let fake = ImplQueryImageInterface {};
    let plan = fake.plan_request(&(url + "/v2/manifests"), "token");
    assert_eq!(plan.url, "http://127.0.0.1:1234/v2/manifests");
    let res = run(&fake, 200, false, None, None, Ok("{ \"test\": \"hello-world\" }"));
    assert!(res.is_ok());
    assert_eq!(
        res.unwrap().data,
        String::from("{ \"test\": \"hello-world\" }")
    );
}

#[test]
fn get_manifest_fail() {
    let url = String::from("http://127.0.0.1:1234");
    let fake = ImplQueryImageInterface {};
    let plan = fake.plan_request(&(url + "/v2/manifests"), "");
    assert_eq!(plan.url, "http://127.0.0.1:1234/v2/manifests");
    let res = run(&fake, 500, false, None, None, Ok(""));
    assert!(res.is_err());
}

#[test]
fn manifest_body_without_link() {
    let fake = ImplQueryImageInterface {};
    let plan = fake.plan_request("http://host/v2/manifests", "token");
    assert_eq!(plan.url, "http://host/v2/manifests");
    let res = run(&fake, 200, false, None, None, Ok("{\"test\":\"hello-world\"}"));
    assert_eq!(
        res.unwrap(),
        ResponseData {
            data: String::from("{\"test\":\"hello-world\"}"),
            link: String::new()
        }
    );
}

#[test]
fn server_error_status() {
    let fake = ImplQueryImageInterface {};
    let err = run(&fake, 500, false, None, None, Ok("ignored")).unwrap_err();
    assert_eq!(err.kind, ErrorKind::StatusError);
    assert_eq!(err.message, "[get_details] 500 Internal Server Error");
}

#[test]
fn digest_header_value() {
    let fake = ImplQueryImageInterface {};
    let res = run(&fake, 200, true, Some("sha256:abc"), None, Ok("body"));
    assert_eq!(
        res.unwrap(),
        ResponseData {
            data: String::from("sha256:abc"),
            link: String::new()
        }
    );
}

#[test]
fn catalog_next_page_link() {
    let fake = ImplQueryImageInterface {};
    let res = run(
        &fake,
        200,
        false,
        None,
        Some("</v2/_catalog?last=x>; rel=\"next\""),
        Ok("{\"repositories\":[]}"),
    )
    .unwrap();
    assert_eq!(res.link, "/v2/_catalog?last=x");
    assert_eq!(res.data, "{\"repositories\":[]}");
}

#[test]
fn digest_mode_ignores_link_header() {
    let fake = ImplQueryImageInterface {};
    let res = run(
        &fake,
        200,
        true,
        Some("sha256:0123"),
        Some("</v2/_catalog?last=x>; rel=\"next\""),
        Ok("body"),
    )
    .unwrap();
    assert_eq!(res.data, "sha256:0123");
    assert_eq!(res.link, "");
}

#[test]
fn body_is_not_read_in_digest_mode() {
    let fake = ImplQueryImageInterface {};
    let step = fake.on_response(200, true, Some(String::from("sha256:1")), None);
    assert!(matches!(step, ResponseStep::Finished(Ok(_))));
}

#[test]
fn body_is_read_in_body_mode() {
    let fake = ImplQueryImageInterface {};
    let step = fake.on_response(200, false, Some(String::from("sha256:1")), None);
    match step {
        ResponseStep::ReadBody(link) => assert_eq!(link, ""),
        ResponseStep::Finished(_) => panic!("expected a body read"),
    }
}

#[test]
fn missing_digest_header_fails() {
    let fake = ImplQueryImageInterface {};
    let err = run(&fake, 200, true, None, None, Ok("body")).unwrap_err();
    assert_eq!(err.kind, ErrorKind::MissingDigestHeaderError);
    assert_eq!(
        err.message,
        "[get_details] missing docker-content-digest header"
    );
}

#[test]
fn body_read_error_is_lower_cased() {
    let fake = ImplQueryImageInterface {};
    let err = run(&fake, 200, false, None, None, Err("Error Decoding Response BODY")).unwrap_err();
    assert_eq!(err.kind, ErrorKind::BodyReadError);
    assert_eq!(
        err.message,
        "[get_details] could not read body contents error decoding response body"
    );
}

#[test]
fn transport_error_is_lower_cased() {
    let fake = ImplQueryImageInterface {};
    let err = fake.on_transport_error("Connection Refused");
    assert_eq!(err.kind, ErrorKind::TransportError);
    assert_eq!(err.message, "[get_details] connection refused");
}

#[test]
fn status_message_holds_the_code() {
    let fake = ImplQueryImageInterface {};
    for code in [201u16, 301, 404, 500, 503] {
        let err = run(&fake, code, false, None, None, Ok("")).unwrap_err();
        assert_eq!(err.kind, ErrorKind::StatusError);
        assert!(err.message.contains(&code.to_string()));
    }
    let err = run(&fake, 404, true, None, None, Ok("")).unwrap_err();
    assert_eq!(err.message, "[get_details] 404 Not Found");
}

#[test]
fn unknown_status_has_placeholder_reason() {
    let fake = ImplQueryImageInterface {};
    let err = run(&fake, 599, false, None, None, Ok("")).unwrap_err();
    assert_eq!(err.message, "[get_details] 599 <unknown status code>");
}

#[test]
fn unauthenticated_request_uses_http() {
    assert_eq!(
        request_url("https://registry.example.com/v2/_catalog", ""),
        "http://registry.example.com/v2/_catalog"
    );
    assert_eq!(
        request_url("http://registry.example.com/v2/_catalog", ""),
        "http://registry.example.com/v2/_catalog"
    );
}

#[test]
fn unauthenticated_rewrite_is_textual() {
    assert_eq!(
        request_url("https://host/v2/https/tags/list", ""),
        "http://host/v2/http/tags/list"
    );
}

#[test]
fn authenticated_request_keeps_url() {
    assert_eq!(
        request_url("https://registry.example.com/v2/_catalog", "abc"),
        "https://registry.example.com/v2/_catalog"
    );
}

#[test]
fn headers_with_token() {
    let h = request_headers("abc");
    let pairs: Vec<(String, String)> = h.into_iter().map(|h| (h.name, h.value)).collect();
    assert_eq!(
        pairs,
        vec![
            (String::from("user-agent"), String::from("image-mirror")),
            (String::from("authorization"), String::from("Bearer abc")),
            (String::from("accept"), String::from(ACCEPT)),
            (String::from("content-type"), String::from("application/json")),
        ]
    );
}

#[test]
fn headers_without_token() {
    let h = request_headers("");
    let names: Vec<String> = h.iter().map(|h| h.name.clone()).collect();
    assert_eq!(names, vec!["user-agent", "accept", "content-type"]);
    assert_eq!(h[1].value, ACCEPT);
}

#[test]
fn plan_request_combines_url_and_headers() {
    let fake = ImplQueryImageInterface {};
    let plan = fake.plan_request("https://host/v2/x/tags/list", "");
    assert_eq!(plan.url, "http://host/v2/x/tags/list");
    assert_eq!(plan.headers.len(), 3);
    let plan = fake.plan_request("https://host/v2/x/tags/list", "t");
    assert_eq!(plan.url, "https://host/v2/x/tags/list");
    assert_eq!(plan.headers[1].value, "Bearer t");
}

#[test]
fn link_header_forms() {
    assert_eq!(
        next_page_link("</v2/repo/tags/list?n=10&last=b>; rel=\"next\""),
        "/v2/repo/tags/list?n=10&last=b"
    );
    assert_eq!(next_page_link("/v2/plain"), "/v2/plain");
    assert_eq!(next_page_link("<<a>>"), "a");
    assert_eq!(next_page_link(""), "");
}

#[test]
fn repeated_query_gives_same_result() {
    let fake = ImplQueryImageInterface {};
    let a = run(&fake, 200, false, None, Some("<x>; rel=\"next\""), Ok("b"));
    let b = run(&fake, 200, false, None, Some("<x>; rel=\"next\""), Ok("b"));
    assert_eq!(a.unwrap(), b.unwrap());
}
