use wasm_rest::{ApiClient, HttpRequest, RequestError};

fn request(method: &str, url: &str, headers: &[(&str, &str)], body: &str) -> HttpRequest {
    HttpRequest {
        method: method.to_string(),
        url: url.to_string(),
        headers: headers.iter().map(|(k, v)| (k.to_string(), v.to_string())).collect(),
        body: body.to_string(),
    }
}

#[test]
fn get_request_completes() {
    let req = request("GET", "https://example.com", &[], "");
    let out = ApiClient::build(&req).expect("valid request");
    assert_eq!(out.method, "GET");
    assert_eq!(out.url, "https://example.com");
    assert!(out.headers.is_empty());
    let head = ApiClient::receive(Ok((200, "OK".to_string())), 1_000, 1_042).unwrap();
    let resp = ApiClient::finish(head, Ok(Some("<html></html>".to_string()))).unwrap();
    assert_eq!(resp.status, 200);
    assert_eq!(resp.status_text, "OK");
    assert!(resp.headers.is_empty());
    assert_eq!(resp.body, "<html></html>");
    assert_eq!(resp.time, 42);
}

#[test]
fn bad_json_body_is_rejected() {
    let req = request(
        "POST",
        "https://example.com",
        &[("Content-Type", "application/json")],
        "{bad json",
    );
    assert_eq!(ApiClient::build(&req).unwrap_err(), RequestError::InvalidJsonBody);
}

#[test]
fn trace_is_rejected() {
    let req = request("TRACE", "https://example.com", &[], "");
    assert_eq!(ApiClient::build(&req).unwrap_err(), RequestError::UnsupportedMethod);
}

#[test]
fn lower_case_method_is_rejected() {
    let req = request("get", "https://example.com", &[], "");
    assert_eq!(ApiClient::build(&req).unwrap_err(), RequestError::UnsupportedMethod);
}

#[test]
fn ftp_is_rejected() {
    let req = request("GET", "ftp://example.com", &[], "");
    assert_eq!(ApiClient::build(&req).unwrap_err(), RequestError::UnsupportedScheme);
}

#[test]
fn scheme_is_checked_before_method() {
    let req = request("TRACE", "ftp://example.com", &[], "");
    assert_eq!(ApiClient::build(&req).unwrap_err(), RequestError::UnsupportedScheme);
}

#[test]
fn network_outage_fails() {
    let r = ApiClient::receive(Err("TypeError: Failed to fetch".to_string()), 10, 20);
    assert_eq!(
        r.unwrap_err(),
        RequestError::NetworkError("TypeError: Failed to fetch".to_string())
    );
}

#[test]
fn relative_url_is_malformed() {
    let req = request("GET", "/just/a/path", &[], "");
    assert_eq!(ApiClient::build(&req).unwrap_err(), RequestError::MalformedUrl);
}

#[test]
fn post_body_needs_content_type() {
    for m in ["POST", "PUT", "PATCH"] {
        let req = request(m, "http://example.com/items", &[("Accept", "*/*")], "x=1");
        assert_eq!(ApiClient::build(&req).unwrap_err(), RequestError::MissingContentType);
    }
}

#[test]
fn empty_content_type_value_counts_as_missing() {
    let req = request("POST", "http://example.com", &[("Content-Type", "")], "x=1");
    assert_eq!(ApiClient::build(&req).unwrap_err(), RequestError::MissingContentType);
}

#[test]
fn get_body_needs_no_content_type() {
    let req = request("GET", "http://example.com", &[], "ignored");
    assert!(ApiClient::build(&req).is_ok());
}

#[test]
fn empty_header_pairs_are_skipped() {
    let req = request(
        "GET",
        "https://example.com",
        &[("", "a"), ("X-Empty", ""), ("X-One", "1"), ("X-Two", "2")],
        "",
    );
    let out = ApiClient::build(&req).unwrap();
    assert_eq!(
        out.headers,
        vec![("X-One".to_string(), "1".to_string()), ("X-Two".to_string(), "2".to_string())]
    );
}

#[test]
fn content_type_name_ignores_case() {
    let bad = request(
        "PUT",
        "https://example.com",
        &[("content-TYPE", "application/json; charset=utf-8")],
        "[1, 2",
    );
    assert_eq!(ApiClient::build(&bad).unwrap_err(), RequestError::InvalidJsonBody);
    let good = request(
        "PUT",
        "https://example.com",
        &[("content-TYPE", "application/json; charset=utf-8")],
        "[1, 2]",
    );
    assert!(ApiClient::build(&good).is_ok());
}

#[test]
fn valid_json_body_is_accepted() {
    let req = request(
        "POST",
        "https://example.com/api",
        &[("Content-Type", "application/json")],
        "{\"a\": [1, true, null]}",
    );
    let out = ApiClient::build(&req).unwrap();
    assert_eq!(out.method, "POST");
    assert_eq!(out.headers.len(), 1);
}

#[test]
fn other_content_type_skips_json_check() {
    let req = request("POST", "https://example.com", &[("Content-Type", "text/plain")], "{bad");
    assert!(ApiClient::build(&req).is_ok());
}

#[test]
fn empty_status_text_gets_placeholder() {
    let head = ApiClient::receive(Ok((204, String::new())), 5, 5).unwrap();
    assert_eq!(head.status, 204);
    assert_eq!(head.status_text, "No Status Text");
    assert_eq!(head.time, 0);
}

#[test]
fn missing_body_string_gets_placeholder() {
    let head = ApiClient::receive(Ok((200, "OK".to_string())), 0, 7).unwrap();
    let resp = ApiClient::finish(head, Ok(None)).unwrap();
    assert_eq!(resp.body, "No response body");
    assert_eq!(resp.time, 7);
}

#[test]
fn body_read_failure_fails() {
    let head = ApiClient::receive(Ok((200, "OK".to_string())), 0, 7).unwrap();
    let r = ApiClient::finish(head, Err("decode".to_string()));
    assert_eq!(r.unwrap_err(), RequestError::BodyReadError("decode".to_string()));
}

#[test]
fn clock_stepping_back_counts_as_no_time() {
    let head = ApiClient::receive(Ok((500, "Internal Server Error".to_string())), 900, 100).unwrap();
    assert_eq!(head.time, 0);
    assert_eq!(head.status_text, "Internal Server Error");
}
