use shadow_proxy::error::HttpError;
use shadow_proxy::partials::{HttpMethod, HttpVersion};
use shadow_proxy::request::RawHttpRequest;

fn raw(payload: &str) -> RawHttpRequest {
    let mut rq: RawHttpRequest = RawHttpRequest::default();
    rq.add_bytes(payload.as_bytes(), payload.len());
    rq
}

#[test]
fn mod_small_request_method() {
    let mut rq: RawHttpRequest = RawHttpRequest::default();
    let payload =
        "GET /api HTTP/1.1\nHost: localhost:1234\nUser-Agent: curl/8.4.0\nAccept: */*\n\n";
    let _ = rq.add_bytes(payload.as_bytes(), payload.len());
    let rq = rq.decode().expect("should be decodable");
    let method: HttpMethod = rq.method;
    let asstr: &str = method.into();
    assert_eq!(asstr, "GET");
}

#[test]
fn mod_small_request_version() {
    let mut rq: RawHttpRequest = RawHttpRequest::default();
    let payload =
        "GET /api HTTP/1.1\nHost: localhost:1234\nUser-Agent: curl/8.4.0\nAccept: */*\n\n";
    let _ = rq.add_bytes(payload.as_bytes(), payload.len());
    let rq = rq.decode().expect("should be decodable");
    let version: HttpVersion = rq.version;
    let asstr: &str = version.into();
    assert_eq!(asstr, "HTTP/1.1");
}

#[test]
fn mod_small_request_target() {
    let mut rq: RawHttpRequest = RawHttpRequest::default();
    let payload =
        "GET /api HTTP/1.1\nHost: localhost:1234\nUser-Agent: curl/8.4.0\nAccept: */*\n\n";
    let _ = rq.add_bytes(payload.as_bytes(), payload.len());
    let rq = rq.decode().expect("should be decodable");
    assert_eq!(rq.target, "/api");
}

#[test]
fn request_small_request_method() {
    let mut rq: RawHttpRequest = RawHttpRequest::default();
    let payload =
        "GET /api HTTP/1.1\nHost: localhost:1234\nUser-Agent: curl/8.4.0\nAccept: */*\n\n";
    let _ = rq.add_bytes(payload.as_bytes(), payload.len());
    let rq = rq.decode().expect("should be decodable");
    let method: HttpMethod = rq.method;
    let asstr: &str = method.into();
    assert_eq!(asstr, "GET");
}

#[test]
fn request_small_request_version() {
    let mut rq: RawHttpRequest = RawHttpRequest::default();
    let payload =
        "GET /api HTTP/1.1\nHost: localhost:1234\nUser-Agent: curl/8.4.0\nAccept: */*\n\n";
    let _ = rq.add_bytes(payload.as_bytes(), payload.len());
    let rq = rq.decode().expect("should be decodable");
    let version: HttpVersion = rq.version;
    let asstr: &str = version.into();
    assert_eq!(asstr, "HTTP/1.1");
}

#[test]
fn request_small_request_target() {
    let mut rq: RawHttpRequest = RawHttpRequest::default();
    let payload =
        "GET /api HTTP/1.1\nHost: localhost:1234\nUser-Agent: curl/8.4.0\nAccept: */*\n\n";
    let _ = rq.add_bytes(payload.as_bytes(), payload.len());
    let rq = rq.decode().expect("should be decodable");
    assert_eq!(rq.target, "/api");
}

#[test]
fn minimal_get_decodes_to_its_three_parts() {
    let rq = raw("GET /api HTTP/1.1\nHost: localhost:1234\nUser-Agent: curl/8.4.0\nAccept: */*\n\n")
        .decode()
        .expect("should be decodable");
    assert_eq!(rq.method, HttpMethod::Get);
    assert_eq!(rq.target, "/api");
    assert_eq!(rq.version, HttpVersion::Http11);
    assert_eq!(rq.size, 75);
    assert!(rq.headers.is_empty());
}

#[test]
fn second_byte_tells_the_p_methods_apart() {
    assert_eq!(raw("POST /x HTTP/1.0\n\n").decode().unwrap().method, HttpMethod::Post);
    assert_eq!(raw("PUT /x HTTP/1.0\n\n").decode().unwrap().method, HttpMethod::Put);
    assert_eq!(raw("PATCH /x HTTP/1.1\n\n").decode().unwrap().method, HttpMethod::Patch);
    assert_eq!(raw("PX /x HTTP/1.0\n\n").decode().unwrap_err(), HttpError::BadFormat);
}

#[test]
fn first_byte_tells_the_other_methods() {
    assert_eq!(raw("CONNECT h:1 HTTP/1.1\n").decode().unwrap().method, HttpMethod::Connect);
    assert_eq!(raw("DELETE /x HTTP/1.1\n").decode().unwrap().method, HttpMethod::Delete);
    assert_eq!(raw("HEAD /x HTTP/1.1\n").decode().unwrap().method, HttpMethod::Head);
    assert_eq!(raw("OPTIONS * HTTP/1.1\n").decode().unwrap().method, HttpMethod::Options);
    assert_eq!(raw("TRACE /x HTTP/1.1\n").decode().unwrap().method, HttpMethod::Trace);
    assert_eq!(raw("XGET /x HTTP/1.1\n").decode().unwrap_err(), HttpError::BadFormat);
}

#[test]
fn short_or_unframed_requests_are_bad_format() {
    assert_eq!(raw("").decode().unwrap_err(), HttpError::BadFormat);
    assert_eq!(raw("G").decode().unwrap_err(), HttpError::BadFormat);
    assert_eq!(raw("GET").decode().unwrap_err(), HttpError::BadFormat);
    assert_eq!(raw("GET /api").decode().unwrap_err(), HttpError::BadFormat);
    assert_eq!(raw("GET /api HTTP/1.1").decode().unwrap_err(), HttpError::BadFormat);
    assert_eq!(raw("GET\n/api\nHTTP/1.1\n").decode().unwrap_err(), HttpError::BadFormat);
}

#[test]
fn target_must_be_utf8() {
    let mut rq = RawHttpRequest::default();
    let bytes: Vec<u8> = vec![b'G', b'E', b'T', b' ', 0xFF, 0xFE, b' ', b'H', b'T', b'T', b'P', b'/', b'1', b'.', b'1', b'\n'];
    rq.add_bytes(&bytes, bytes.len());
    assert_eq!(rq.decode().unwrap_err(), HttpError::BadFormat);

    let rq = raw("GET /caf\u{e9}/\u{1F600} HTTP/1.1\n").decode().unwrap();
    assert_eq!(rq.target, "/caf\u{e9}/\u{1F600}");
}

#[test]
fn target_is_kept_verbatim() {
    let rq = raw("GET /a%20b?x=1#f HTTP/1.1\r\n").decode().unwrap();
    assert_eq!(rq.target, "/a%20b?x=1#f");
    let rq = raw("GET  HTTP/1.1\n").decode().unwrap();
    assert_eq!(rq.target, "");
}

#[test]
fn request_version_tokens() {
    assert_eq!(raw("GET / HTTP/1.0\n").decode().unwrap().version, HttpVersion::Http10);
    assert_eq!(raw("GET / HTTP/1.1\r\n").decode().unwrap().version, HttpVersion::Http11);
    assert_eq!(raw("GET / HTTP/2\n").decode().unwrap().version, HttpVersion::Http2);
    assert_eq!(raw("GET / HTTP/3\r\n").decode().unwrap().version, HttpVersion::Http3);
    assert_eq!(raw("GET / HTTP/4\n").decode().unwrap_err(), HttpError::UnknownVersion);
    assert_eq!(raw("GET / HTTP/1.2\n").decode().unwrap_err(), HttpError::UnknownVersion);
    assert_eq!(raw("GET / http/1.1\n").decode().unwrap_err(), HttpError::UnknownVersion);
    assert_eq!(raw("GET / \n").decode().unwrap_err(), HttpError::UnknownVersion);
}

#[test]
fn raw_request_counts_what_it_holds() {
    let mut rq = RawHttpRequest::default();
    assert_eq!(rq.size(), 0);
    assert!(rq.bytes().is_empty());
    rq.add_bytes(b"GET /", 5);
    rq.add_bytes(b"", 0);
    rq.add_bytes(b"api", 3);
    assert_eq!(rq.size(), 8);
    assert_eq!(rq.bytes(), b"GET /api");
}
