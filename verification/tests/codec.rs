use shadow_proxy::error::HttpError;
use shadow_proxy::partials::{HttpMethod, HttpStatusCode, HttpVersion};

const VERSIONS: [(HttpVersion, &str); 4] = [
    (HttpVersion::Http10, "HTTP/1.0"),
    (HttpVersion::Http11, "HTTP/1.1"),
    (HttpVersion::Http2, "HTTP/2"),
    (HttpVersion::Http3, "HTTP/3"),
];

const METHODS: [(HttpMethod, &str); 9] = [
    (HttpMethod::Options, "OPTIONS"),
    (HttpMethod::Get, "GET"),
    (HttpMethod::Head, "HEAD"),
    (HttpMethod::Post, "POST"),
    (HttpMethod::Put, "PUT"),
    (HttpMethod::Delete, "DELETE"),
    (HttpMethod::Trace, "TRACE"),
    (HttpMethod::Connect, "CONNECT"),
    (HttpMethod::Patch, "PATCH"),
];

#[test]
fn version_round_trip() {
    for (version, token) in VERSIONS {
        let written: &str = version.into();
        assert_eq!(written, token);
        assert_eq!(version.token(), token);
        assert_eq!(HttpVersion::try_from(token), Ok(version));
        assert_eq!(HttpVersion::try_from(token.as_bytes()), Ok(version));
        assert_eq!(HttpVersion::spelled_by(token.as_bytes(), 0, token.len()), Some(version));
    }
}

#[test]
fn version_text_is_exact() {
    for text in ["", "HTTP", "HTTP/", "HTTP/1", "HTTP/1.", "HTTP/1.2", "HTTP/4", "http/1.1", "HTTP/1.1 ", " HTTP/1.1", "HTTP/1.1\r", "HTTP/2.0", "HTTP/11", "HTTP/3x"] {
        assert_eq!(HttpVersion::try_from(text), Err(HttpError::UnknownVersion), "{:?}", text);
        assert_eq!(HttpVersion::spelled_by(text.as_bytes(), 0, text.len()), None, "{:?}", text);
    }
}

#[test]
fn version_bytes_are_read_leniently() {
    let read = |text: &str| HttpVersion::try_from(text.as_bytes());
    assert_eq!(read("HTTP/1.1\r"), Ok(HttpVersion::Http11));
    assert_eq!(read("HTTP/1.0\r"), Ok(HttpVersion::Http10));
    assert_eq!(read("HTTP/1.0 and more"), Ok(HttpVersion::Http10));
    assert_eq!(read("HTTP/2\r"), Ok(HttpVersion::Http2));
    assert_eq!(read("HTTP/2.0"), Ok(HttpVersion::Http2));
    assert_eq!(read("HTTP/3.9"), Ok(HttpVersion::Http3));
    for text in ["", "H", "HTTP", "HTTP/", "HTTP/1", "HTTP/1.", "HTTP/1.2", "HTTP/1x0", "HTTP/4", "HTTP/0.9", "http/1.1", "HTTQ/1.1", " HTTP/1.1", "XXXX/2"] {
        assert_eq!(read(text), Err(HttpError::UnknownVersion), "{:?}", text);
    }
}

#[test]
fn spelled_by_reads_a_range() {
    let buf = b"GET / HTTP/1.1";
    assert_eq!(HttpMethod::spelled_by(buf, 0, 3), Some(HttpMethod::Get));
    assert_eq!(HttpMethod::spelled_by(buf, 0, 2), None);
    assert_eq!(HttpMethod::spelled_by(buf, 0, 4), None);
    assert_eq!(HttpMethod::spelled_by(buf, 3, 3), None);
    assert_eq!(HttpVersion::spelled_by(buf, 6, 14), Some(HttpVersion::Http11));
    assert_eq!(HttpVersion::spelled_by(buf, 6, 13), None);
    assert_eq!(HttpVersion::spelled_by(buf, 5, 14), None);
}

#[test]
fn method_round_trip() {
    for (method, token) in METHODS {
        let written: &str = method.into();
        assert_eq!(written, token);
        assert_eq!(method.token(), token);
        assert_eq!(HttpMethod::try_from(token), Ok(method));
        assert_eq!(HttpMethod::spelled_by(token.as_bytes(), 0, token.len()), Some(method));
        let bytes = token.as_bytes();
        assert_eq!(HttpMethod::discriminate(bytes[0], bytes[1]), Some(method));
    }
}

#[test]
fn unknown_method_tokens() {
    for text in ["", "get", "Get", "GET ", "GETS", "PO", "LINK", "PATCHY"] {
        assert_eq!(HttpMethod::try_from(text), Err(HttpError::BadFormat), "{:?}", text);
    }
}

#[test]
fn method_discriminator() {
    assert_eq!(HttpMethod::discriminate(b'G', 0), Some(HttpMethod::Get));
    assert_eq!(HttpMethod::discriminate(b'G', b'X'), Some(HttpMethod::Get));
    assert_eq!(HttpMethod::discriminate(b'C', b'O'), Some(HttpMethod::Connect));
    assert_eq!(HttpMethod::discriminate(b'D', b' '), Some(HttpMethod::Delete));
    assert_eq!(HttpMethod::discriminate(b'H', b'E'), Some(HttpMethod::Head));
    assert_eq!(HttpMethod::discriminate(b'O', b'P'), Some(HttpMethod::Options));
    assert_eq!(HttpMethod::discriminate(b'T', b'R'), Some(HttpMethod::Trace));
    assert_eq!(HttpMethod::discriminate(b'P', b'O'), Some(HttpMethod::Post));
    assert_eq!(HttpMethod::discriminate(b'P', b'U'), Some(HttpMethod::Put));
    assert_eq!(HttpMethod::discriminate(b'P', b'A'), Some(HttpMethod::Patch));
    assert_eq!(HttpMethod::discriminate(b'P', b'X'), None);
    assert_eq!(HttpMethod::discriminate(b'P', b'o'), None);
    assert_eq!(HttpMethod::discriminate(b'g', b'E'), None);
    assert_eq!(HttpMethod::discriminate(b'X', b'O'), None);
    assert_eq!(HttpMethod::discriminate(0, 0), None);
}

#[test]
fn status_from_three_bytes() {
    assert_eq!(HttpStatusCode::from(&b"200"[..]), HttpStatusCode::Ok200);
    for code in ["201", "404", "500", "20", "2000", "", "2x0", "abc", "20 "] {
        assert_eq!(HttpStatusCode::from(code.as_bytes()), HttpStatusCode::Unknown, "{:?}", code);
    }
}
