use shadow_proxy::config::ProxyConfig;
use shadow_proxy::error::{HttpError, ServerError};
use shadow_proxy::partials::{HttpHeader, HttpMethod, HttpStatusCode, HttpVersion};
use shadow_proxy::pipeline::analyze;
use shadow_proxy::request::RawHttpRequest;
use shadow_proxy::response::RawHttpResponse;

fn request(text: &str) -> RawHttpRequest {
    let mut raw = RawHttpRequest::default();
    raw.add_bytes(text.as_bytes(), text.len());
    raw
}

fn response(text: &str) -> RawHttpResponse {
    RawHttpResponse::from(text.as_bytes().to_vec())
}

#[test]
fn a_record_holds_the_three_decodings() {
    let record = analyze(
        (
            request("GET /api HTTP/1.1\n\n"),
            response("HTTP/1.1 200 OK\r\nContent-Length: 2\r\n\r\nhi"),
        ),
        Ok(response("HTTP/1.0 404 Not Found\r\nServer: shadow\r\n\r\n")),
    )
    .unwrap();
    let decoded = record.request.as_ref().unwrap();
    assert_eq!(decoded.method, HttpMethod::Get);
    assert_eq!(decoded.target, "/api");
    assert_eq!(decoded.size, 19);
    let primary = record.primary.as_ref().unwrap();
    assert_eq!(primary.version, HttpVersion::Http11);
    assert_eq!(primary.status, HttpStatusCode::Ok200);
    assert_eq!(primary.content_length, Some(2));
    let shadow = record.shadow.as_ref().unwrap();
    assert_eq!(shadow.version, HttpVersion::Http10);
    assert_eq!(shadow.status, HttpStatusCode::Unknown);
    assert_eq!(shadow.headers, vec![(HttpHeader::Server, String::from("shadow"))]);
    assert_eq!(shadow.content_length, None);
    assert!(record.is_comparable());
    assert!(record.failures().is_empty());
}

#[test]
fn a_slot_that_does_not_decode_holds_the_reason() {
    let record = analyze((request("bogus"), response("HTTP/1.1 200")), Ok(response("HTTP/7 200"))).unwrap();
    assert_eq!(record.request.as_ref().unwrap_err(), &HttpError::BadFormat);
    assert!(record.primary.is_ok());
    assert_eq!(record.shadow.as_ref().unwrap_err(), &HttpError::UnknownVersion);
    assert!(!record.is_comparable());
    assert_eq!(
        record.failures(),
        vec![
            String::from("error parsing request: Http seems to be wrongly formatted"),
            String::from("error parsing shadow response: Http version seems to be unknown"),
        ]
    );

    let record = analyze((request("GET / HTTP/1.1\n"), response("nothing")), Ok(response("HTTP/1.1 200"))).unwrap();
    assert!(record.request.is_ok());
    assert_eq!(record.primary.as_ref().unwrap_err(), &HttpError::BadFormat);
    assert!(record.shadow.is_ok());
    assert!(!record.is_comparable());
    assert_eq!(
        record.failures(),
        vec![String::from("error parsing main response: Http seems to be wrongly formatted")]
    );

    let record = analyze((request(""), response("")), Ok(response(""))).unwrap();
    assert_eq!(record.failures().len(), 3);

    let record = analyze((request("nothing"), response("HTTP/1.1 200")), Ok(response("HTTP/1.1 500"))).unwrap();
    assert!(record.is_comparable());
    assert_eq!(record.failures().len(), 1);
}

#[test]
fn a_failed_shadow_call_gives_no_record() {
    let error = ServerError::Unresponsive(String::from("127.0.0.1:4002"), String::from("refused"));
    let outcome = analyze((request("GET / HTTP/1.1\n"), response("HTTP/1.1 200")), Err(error.clone()));
    assert_eq!(outcome.unwrap_err(), error);
}

#[test]
fn default_settings() {
    let config = ProxyConfig::default();
    assert_eq!(config.primary, "127.0.0.1:4001");
    assert_eq!(config.shadow, "127.0.0.1:4002");
    assert_eq!(config.listen, "127.0.0.1:1234");
    assert_eq!(config.serving_workers, 10);
    assert_eq!(config.analyzer_workers, 2);
    assert_eq!(config.channel_capacity, 1000);
    assert_eq!(config.buffer_size, 1500);
}
