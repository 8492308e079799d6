use herbivore::headers::Header;
use herbivore::relay::{process_response, HttpResponse, ResponseHeader};

fn response(status: u16, headers: Vec<ResponseHeader>, body: &[u8]) -> HttpResponse {
    HttpResponse::new("http://example.test/x".to_string(), status, headers, body.to_vec())
        .expect("a response")
}

fn raw(name: &str, value: &[u8]) -> ResponseHeader {
    ResponseHeader { name: name.to_string(), value: value.to_vec() }
}

fn header(name: &str, value: &str) -> Header {
    Header { name: name.to_string(), value: value.to_string() }
}

#[test]
fn a_response_is_reported_with_status_phrase_and_base64_body() {
    let r = response(200, vec![raw("content-type", b"text/plain")], b"ok");
    assert_eq!(r.url(), "http://example.test/x");
    assert_eq!(r.status(), 200);
    assert_eq!(r.headers(), &vec![raw("content-type", b"text/plain")]);
    assert_eq!(r.body(), &b"ok".to_vec());
    let result = process_response(&r);
    assert_eq!(result.url, "http://example.test/x");
    assert_eq!(result.status, 200);
    assert_eq!(result.status_text, "OK");
    assert_eq!(result.headers, vec![header("content-type", "text/plain")]);
    assert_eq!(result.body, "b2s=");
}

#[test]
fn status_phrases_of_known_codes() {
    for (status, phrase) in [
        (100, "Continue"),
        (200, "OK"),
        (201, "Created"),
        (301, "Moved Permanently"),
        (404, "Not Found"),
        (418, "I'm a teapot"),
        (500, "Internal Server Error"),
        (503, "Service Unavailable"),
    ] {
        let result = process_response(&response(status, vec![], b""));
        assert_eq!(result.status, status);
        assert_eq!(result.status_text, phrase, "{}", status);
    }
}

#[test]
fn a_code_without_a_phrase_is_reported_with_the_empty_text() {
    for status in [199, 299, 600, 999] {
        let result = process_response(&response(status, vec![], b""));
        assert_eq!(result.status, status);
        assert_eq!(result.status_text, "", "{}", status);
    }
}

#[test]
fn an_empty_body_is_reported_as_the_empty_text() {
    let result = process_response(&response(204, vec![], b""));
    assert_eq!(result.status_text, "No Content");
    assert_eq!(result.body, "");
    assert_eq!(result.headers, vec![]);
}

#[test]
fn a_header_value_that_is_not_utf8_is_reported_empty() {
    let r = response(
        200,
        vec![raw("x-bin", &[0xff, 0xfe]), raw("x-cut", &[0xe2, 0x82]), raw("x-text", "caf\u{e9}".as_bytes())],
        b"",
    );
    assert_eq!(
        process_response(&r).headers,
        vec![header("x-bin", ""), header("x-cut", ""), header("x-text", "caf\u{e9}")]
    );
}

#[test]
fn the_last_value_of_a_name_is_the_one_reported() {
    let r = response(
        200,
        vec![
            raw("set-cookie", b"a=1"),
            raw("server", b"s"),
            raw("set-cookie", b"b=2"),
            raw("via", b"v"),
            raw("set-cookie", b"c=3"),
            raw("server", &[0x80]),
        ],
        b"",
    );
    assert_eq!(
        process_response(&r).headers,
        vec![header("set-cookie", "c=3"), header("server", ""), header("via", "v")]
    );
}

#[test]
fn names_that_differ_in_case_are_different_names() {
    let r = response(200, vec![raw("a", b"1"), raw("A", b"2")], b"");
    assert_eq!(process_response(&r).headers, vec![header("a", "1"), header("A", "2")]);
}

#[test]
fn only_http_status_codes_make_a_response() {
    for status in [0, 1, 99, 1000, 1001, u16::MAX] {
        assert_eq!(HttpResponse::new("u".to_string(), status, vec![], vec![]), None, "{}", status);
    }
    for status in [100, 101, 200, 599, 600, 999] {
        let r = HttpResponse::new("u".to_string(), status, vec![], vec![]).expect("a response");
        assert_eq!(r.status(), status);
    }
}
