use ejsr::fetch::build_request;
use ejsr::fetch::header_lookup;
use ejsr::fetch::make_response;
use ejsr::fetch::FetchError;
use ejsr::fetch::HeaderEntry;
use ejsr::fetch::RawHeader;
use ejsr::fetch::RequestInit;

fn raw(name: &str, value: &[u8]) -> RawHeader {
    RawHeader { name: String::from(name), value: value.to_vec() }
}

#[test]
fn default_request_is_a_bare_get() {
    let p = build_request("https://example.com/", None).unwrap();
    assert_eq!(p.method, "GET");
    assert_eq!(p.url, "https://example.com/");
    assert!(p.headers.is_empty());
    assert_eq!(p.body, None);
}

#[test]
fn configured_method_headers_and_body_are_kept() {
    let init = RequestInit {
        method: Some(String::from("POST")),
        headers: Some(vec![HeaderEntry {
            name: String::from("content-type"),
            value: String::from("application/json"),
        }]),
        body: Some(String::from("{\"a\":1}")),
    };
    let p = build_request("https://example.com/api", Some(init)).unwrap();
    assert_eq!(p.method, "POST");
    assert_eq!(p.url, "https://example.com/api");
    assert_eq!(p.headers.len(), 1);
    assert_eq!(p.headers[0].name, "content-type");
    assert_eq!(p.headers[0].value, "application/json");
    assert_eq!(p.body, Some(String::from("{\"a\":1}")));
}

#[test]
fn invalid_method_token_is_refused() {
    let init = RequestInit {
        method: Some(String::from("NOT A METHOD")),
        headers: None,
        body: None,
    };
    let e = build_request("https://example.com/", Some(init)).unwrap_err();
    assert!(matches!(e, FetchError::InvalidMethod(_)));
}

#[test]
fn not_found_status_is_an_answer_not_an_error() {
    let r = make_response(
        String::from("https://example.com/missing"),
        404,
        vec![raw("content-type", b"text/plain")],
        String::from("no such page"),
    );
    assert_eq!(r.status, 404);
    assert_eq!(r.status_text, "Not Found");
    assert!(!r.redirected);
    assert_eq!(r.body, "no such page");
    assert_eq!(r.url, "https://example.com/missing");
}

#[test]
fn ok_status_carries_its_reason_phrase() {
    let r = make_response(String::from("https://example.com/"), 200, vec![], String::new());
    assert_eq!(r.status_text, "OK");
    assert!(!r.redirected);
}

#[test]
fn unknown_status_has_an_empty_reason_phrase() {
    let r = make_response(String::from("https://example.com/"), 299, vec![], String::new());
    assert_eq!(r.status_text, "");
}

#[test]
fn redirect_range_statuses_mark_the_response_redirected() {
    let r = make_response(String::from("https://example.com/"), 301, vec![], String::new());
    assert!(r.redirected);
    assert_eq!(r.status_text, "Moved Permanently");
    let r = make_response(String::from("https://example.com/"), 399, vec![], String::new());
    assert!(r.redirected);
    let r = make_response(String::from("https://example.com/"), 400, vec![], String::new());
    assert!(!r.redirected);
}

#[test]
fn undecodable_header_value_drops_that_header_only() {
    let r = make_response(
        String::from("https://example.com/"),
        200,
        vec![raw("x-bin", b"\xff\xfe"), raw("content-type", b"text/html")],
        String::new(),
    );
    assert_eq!(r.headers.len(), 1);
    assert_eq!(r.headers[0].name, "content-type");
    assert_eq!(r.headers[0].value, "text/html");
    assert_eq!(header_lookup(&r, "x-bin"), None);
}

#[test]
fn repeated_header_reads_as_the_last_write() {
    let r = make_response(
        String::from("https://example.com/"),
        200,
        vec![raw("x-dup", b"first"), raw("other", b"zzz"), raw("x-dup", b"second")],
        String::new(),
    );
    assert_eq!(header_lookup(&r, "x-dup"), Some(String::from("second")));
    assert_eq!(header_lookup(&r, "other"), Some(String::from("zzz")));
    assert_eq!(header_lookup(&r, "absent"), None);
}

#[test]
fn fetch_failures_render_their_messages() {
    let e = FetchError::InvalidMethod(String::from("invalid HTTP method"));
    assert_eq!(e.message(), "Invalid method: invalid HTTP method");
    let e = FetchError::Transport(String::from("connection refused"));
    assert_eq!(e.message(), "connection refused");
}
