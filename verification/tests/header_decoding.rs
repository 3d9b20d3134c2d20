use shadow_proxy::decoders::{build_header_pair, decode_header, is_whitespace, len_match};
use shadow_proxy::partials::HttpHeader;

const ALL: [(HttpHeader, &str); 50] = [
    (HttpHeader::Accept, "Accept"),
    (HttpHeader::AcceptPatch, "Accept-Patch"),
    (HttpHeader::AcceptRanges, "Accept-Ranges"),
    (HttpHeader::AccessControlAllowOrigin, "Access-Control-Allow-Origin"),
    (HttpHeader::AccessControlAllowCredentials, "Access-Control-Allow-Credentials"),
    (HttpHeader::AccessControlAllowMethods, "Access-Control-Allow-Methods"),
    (HttpHeader::AccessControlAllowHeaders, "Access-Control-Allow-Headers"),
    (HttpHeader::AccessControlExposeHeaders, "Access-Control-Expose-Headers"),
    (HttpHeader::AccessControlMaxAge, "Access-Control-Max-Age"),
    (HttpHeader::Age, "Age"),
    (HttpHeader::Allow, "Allow"),
    (HttpHeader::AltSvc, "Alt-Svc"),
    (HttpHeader::CacheControl, "Cache-Control"),
    (HttpHeader::Connection, "Connection"),
    (HttpHeader::ContentDisposition, "Content-Disposition"),
    (HttpHeader::ContentEncoding, "Content-Encoding"),
    (HttpHeader::ContentLanguage, "Content-Language"),
    (HttpHeader::ContentLength, "Content-Length"),
    (HttpHeader::ContentLocation, "Content-Location"),
    (HttpHeader::ContentRange, "Content-Range"),
    (HttpHeader::ContentType, "Content-Type"),
    (HttpHeader::ContentSecurityPolicy, "Content-Security-Policy"),
    (HttpHeader::Date, "Date"),
    (HttpHeader::DeltaBase, "Delta-Base"),
    (HttpHeader::ETag, "ETag"),
    (HttpHeader::Expires, "Expires"),
    (HttpHeader::IM, "IM"),
    (HttpHeader::LastModified, "Last-Modified"),
    (HttpHeader::Link, "Link"),
    (HttpHeader::Location, "Location"),
    (HttpHeader::Pragma, "Pragma"),
    (HttpHeader::ProxyAuthenticate, "Proxy-Authenticate"),
    (HttpHeader::PublicKeyPins, "Public-Key-Pins"),
    (HttpHeader::RetryAfter, "Retry-After"),
    (HttpHeader::Refresh, "Refresh"),
    (HttpHeader::Server, "Server"),
    (HttpHeader::SetCookie, "Set-Cookie"),
    (HttpHeader::StrictTransportSecurity, "Strict-Transport-Security"),
    (HttpHeader::Trailer, "Trailer"),
    (HttpHeader::TransferEncoding, "Transfer-Encoding"),
    (HttpHeader::Tk, "Tk"),
    (HttpHeader::Upgrade, "Upgrade"),
    (HttpHeader::Vary, "Vary"),
    (HttpHeader::Via, "Via"),
    (HttpHeader::Warning, "Warning"),
    (HttpHeader::WWWAuthenticate, "WWW-Authenticate"),
    (HttpHeader::XPoweredBy, "X-Powered-By"),
    (HttpHeader::XRequestID, "X-Request-ID"),
    (HttpHeader::XUACompatible, "X-UA-Compatible"),
    (HttpHeader::XXSSProtection, "X-XSS-Protection"),
];

/// Decodes `line`, which ends with its line feed, as it stands alone in a buffer.
fn line(text: &str) -> Option<(HttpHeader, String)> {
    let bytes = text.as_bytes();
    assert_eq!(bytes[bytes.len() - 1], b'\n');
    decode_header(bytes, 0, bytes.len() - 1)
}

#[test]
fn every_recognised_name_decodes_to_its_header() {
    for (kind, name) in ALL {
        assert_eq!(kind.name(), name);
        assert_eq!(
            line(&format!("{}: some value\r\n", name)),
            Some((kind, String::from("some value"))),
            "{}",
            name
        );
        assert_eq!(line(&format!("{}:v\n", name)), Some((kind, String::from("v"))), "{}", name);
    }
}

#[test]
fn names_are_matched_exactly() {
    for (_, name) in ALL {
        let lower = name.to_lowercase();
        assert_eq!(line(&format!("{}: v\r\n", lower)), None, "{}", lower);
        let upper = name.to_uppercase();
        if upper != name {
            assert_eq!(line(&format!("{}: v\r\n", upper)), None, "{}", upper);
        }
        // one character changed, at each position in turn
        for i in 0..name.len() {
            let mut changed = name.as_bytes().to_vec();
            changed[i] = if changed[i] == b'#' { b'%' } else { b'#' };
            let changed = String::from_utf8(changed).unwrap();
            assert_eq!(line(&format!("{}: v\r\n", changed)), None, "{}", changed);
        }
        // the name cut short, and the name with more behind it
        assert_eq!(line(&format!("{}: v\r\n", &name[..name.len() - 1])), None, "{}", name);
        assert_eq!(line(&format!("{}x: v\r\n", name)), None, "{}", name);
        // no colon, or a space before it
        assert_eq!(line(&format!("{} v\r\n", name)), None, "{}", name);
        assert_eq!(line(&format!("{} : v\r\n", name)), None, "{}", name);
        assert_eq!(line(&format!(" {}: v\r\n", name)), None, "{}", name);
    }
}

#[test]
fn unrecognised_names_decode_to_nothing() {
    assert_eq!(line("X-Weird: yes\r\n"), None);
    assert_eq!(line("Host: localhost:1234\n"), None);
    assert_eq!(line("User-Agent: curl/8.4.0\n"), None);
    assert_eq!(line("Dxte: now\r\n"), None);
    assert_eq!(line("Accept-Encoding: gzip\r\n"), None);
    assert_eq!(line("Content-Lxngth: 4\r\n"), None);
    assert_eq!(line(": v\r\n"), None);
    assert_eq!(line("\r\n"), None);
    assert_eq!(line("\n"), None);
    assert_eq!(line("A\n"), None);
    assert_eq!(line("Age\n"), None);
}

#[test]
fn values_are_trimmed_at_both_ends() {
    assert_eq!(line("Date: now\r\n"), Some((HttpHeader::Date, String::from("now"))));
    assert_eq!(line("Date: now\n"), Some((HttpHeader::Date, String::from("now"))));
    assert_eq!(line("Date:now\n"), Some((HttpHeader::Date, String::from("now"))));
    assert_eq!(line("Date: \t now \t \r\n"), Some((HttpHeader::Date, String::from("now"))));
    assert_eq!(line("Date:\x0c now\x0c\n"), Some((HttpHeader::Date, String::from("now"))));
    assert_eq!(
        line("Date:  Tue, 1 Jan  2030 \r\n"),
        Some((HttpHeader::Date, String::from("Tue, 1 Jan  2030")))
    );
    assert_eq!(
        line("Location: http://h:1/a:b\r\n"),
        Some((HttpHeader::Location, String::from("http://h:1/a:b")))
    );
    // a vertical tab is no ASCII whitespace
    assert_eq!(line("Date: \x0bnow\n"), Some((HttpHeader::Date, String::from("\x0bnow"))));
}

#[test]
fn empty_values_decode_to_nothing() {
    assert_eq!(line("Date:\r\n"), None);
    assert_eq!(line("Date:\n"), None);
    assert_eq!(line("Date: \r\n"), None);
    assert_eq!(line("Date: \t \t\r\n"), None);
}

#[test]
fn values_are_utf8() {
    assert_eq!(
        line("Server: caf\u{e9} \u{1F600}\r\n"),
        Some((HttpHeader::Server, String::from("caf\u{e9} \u{1F600}")))
    );
    let mut bytes = b"Server: ".to_vec();
    bytes.extend_from_slice(&[0xC3, 0x28]);
    bytes.extend_from_slice(b"\r\n");
    assert_eq!(decode_header(&bytes, 0, bytes.len() - 1), None);
    let mut bytes = b"Server: ok".to_vec();
    bytes.push(0xFF);
    bytes.push(b'\n');
    assert_eq!(decode_header(&bytes, 0, bytes.len() - 1), None);
}

#[test]
fn a_line_is_decoded_where_it_stands() {
    let buf = b"HTTP/1.1 200 OK\r\nVia: 1.1 a\r\nAge: 12\r\n\r\n";
    assert_eq!(decode_header(buf, 17, 27), Some((HttpHeader::Via, String::from("1.1 a"))));
    assert_eq!(decode_header(buf, 29, 37), Some((HttpHeader::Age, String::from("12"))));
    assert_eq!(decode_header(buf, 39, 40), None);
    assert_eq!(decode_header(buf, 0, 16), None);
    // what lies beyond the end of the line is not read
    assert_eq!(decode_header(buf, 29, 32), None);
    assert_eq!(decode_header(buf, 29, 33), None);
    assert_eq!(decode_header(buf, 29, 35), Some((HttpHeader::Age, String::from("1"))));
    assert_eq!(decode_header(buf, 29, 29), None);
    assert_eq!(decode_header(buf, buf.len(), buf.len()), None);
}

#[test]
fn len_match_finds_the_colon_within_the_line() {
    let buf = b"Age: 1\nVia: x\n";
    assert!(len_match(buf, 0, 6, 3));
    assert!(!len_match(buf, 0, 6, 2));
    assert!(!len_match(buf, 0, 6, 4));
    assert!(len_match(buf, 7, 13, 3));
    // a colon beyond the end of the line does not count
    assert!(!len_match(buf, 0, 3, 3));
    assert!(len_match(buf, 0, 4, 3));
    assert!(!len_match(buf, 0, 6, 10));
    assert!(!len_match(buf, 0, 6, usize::MAX));
    assert!(!len_match(buf, 14, 14, 0));
    // a colon at the offset, but in the next line
    assert!(!len_match(buf, 0, 6, 10));
    assert!(len_match(buf, 0, 14, 10));
    // a line that ends before it begins, or beyond the buffer
    assert!(!len_match(buf, 6, 3, 0));
    assert!(!len_match(buf, 3, 0, 0));
    assert!(len_match(buf, 0, 100, 3));
    assert!(len_match(buf, 0, usize::MAX, 10));
    assert!(!len_match(buf, 0, 100, 14));
    assert!(!len_match(buf, 0, usize::MAX, 50));
    assert!(!len_match(buf, usize::MAX, usize::MAX, 1));
    assert!(!len_match(buf, 20, 30, 0));
    assert!(!len_match(b"", 0, 0, 0));
    assert!(!len_match(b"", 0, 5, 0));
}

#[test]
fn build_header_pair_takes_both_ends() {
    let buf = b"Age:  12 \r\n";
    assert_eq!(build_header_pair(buf, 4, 9, HttpHeader::Age), Some((HttpHeader::Age, String::from("12"))));
    assert_eq!(build_header_pair(buf, 6, 7, HttpHeader::Age), Some((HttpHeader::Age, String::from("12"))));
    assert_eq!(build_header_pair(buf, 6, 6, HttpHeader::Age), Some((HttpHeader::Age, String::from("1"))));
    assert_eq!(build_header_pair(buf, 0, 2, HttpHeader::Vary), Some((HttpHeader::Vary, String::from("Age"))));
    assert_eq!(build_header_pair(buf, 4, 5, HttpHeader::Age), None);
    assert_eq!(build_header_pair(buf, 8, 10, HttpHeader::Age), None);
    assert_eq!(build_header_pair(buf, 7, 6, HttpHeader::Age), None);
    assert_eq!(build_header_pair(buf, 9, 3, HttpHeader::Age), None);
    assert_eq!(build_header_pair(buf, 0, 11, HttpHeader::Age), None);
    assert_eq!(build_header_pair(buf, 0, usize::MAX, HttpHeader::Age), None);
    assert_eq!(build_header_pair(b"", 0, 0, HttpHeader::Age), None);
}

#[test]
fn ascii_whitespace() {
    for b in 0..=255u8 {
        assert_eq!(is_whitespace(b), b.is_ascii_whitespace(), "{}", b);
    }
}
