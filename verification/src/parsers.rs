//! The request line on its own: three fields with one space between them.

use vstd::prelude::*;
use vstd::string::*;
use vstd::utf8::*;
use vstd::std_specs::convert::TryFromSpecImpl;
use crate::error::HttpError;
use crate::partials::{HttpMethod, HttpVersion};
use crate::scan::{find_byte, next_index, SP};
use crate::text::{text_of, utf8_range};

verus! {

/// A request line: the method, the target as it was written, the version.
#[derive(Debug)]
pub struct RequestLine {
    pub method: HttpMethod,
    pub uri: String,
    pub version: HttpVersion,
}

/// A request line as plain values.
pub struct RequestLineView {
    pub method: HttpMethod,
    pub uri: Seq<char>,
    pub version: HttpVersion,
}

impl View for RequestLine {
    type V = RequestLineView;

    open spec fn view(&self) -> RequestLineView {
        RequestLineView { method: self.method, uri: self.uri@, version: self.version }
    }
}

/// Whether `bytes` hold exactly two spaces, which part them into three
/// fields.
pub open spec fn three_fields(bytes: Seq<u8>) -> bool {
    let first = next_index(bytes, 0, SP);
    let second = next_index(bytes, first + 1, SP);
    second < bytes.len() && next_index(bytes, second + 1, SP) == bytes.len()
}

/// What the bytes of a request line parse to; the line has no terminator.
///
/// Bytes that are not three fields are a `BadFormat`, and so are three fields
/// of which the first is no method token or the second is not UTF-8. Where
/// only the third is at fault, being no version token, that is an
/// `UnknownVersion`.
pub open spec fn request_line_of(bytes: Seq<u8>) -> Result<RequestLineView, HttpError> {
    let first = next_index(bytes, 0, SP);
    let second = next_index(bytes, first + 1, SP);
    let method = HttpMethod::spelled(bytes.subrange(0, first));
    let uri = text_of(bytes.subrange(first + 1, second));
    let version = HttpVersion::spelled(bytes.subrange(second + 1, bytes.len() as int));
    if !three_fields(bytes) || method is None || uri is None {
        Err(HttpError::BadFormat)
    } else if version is None {
        Err(HttpError::UnknownVersion)
    } else {
        Ok(RequestLineView { method: method.unwrap(), uri: uri.unwrap(), version: version.unwrap() })
    }
}

/// Parses a request line.
pub fn parse_request_line(bytes: &[u8]) -> (line: Result<RequestLine, HttpError>)
    ensures
        match request_line_of(bytes@) {
            Ok(view) => line is Ok && line.unwrap()@ == view,
            Err(e) => line == Err::<RequestLine, HttpError>(e),
        },
{
    let len: usize = bytes.len();
    let first: usize = match find_byte(bytes, 0, SP) {
        Some(first) => first,
        None => {
            return Err(HttpError::BadFormat);
        },
    };
    let second: usize = match find_byte(bytes, first + 1, SP) {
        Some(second) => second,
        None => {
            return Err(HttpError::BadFormat);
        },
    };
    if find_byte(bytes, second + 1, SP).is_some() {
        return Err(HttpError::BadFormat);
    }
    let method = match HttpMethod::spelled_by(bytes, 0, first) {
        Some(method) => method,
        None => {
            return Err(HttpError::BadFormat);
        },
    };
    let uri = match utf8_range(bytes, first + 1, second) {
        Some(uri) => uri,
        None => {
            return Err(HttpError::BadFormat);
        },
    };
    let version = match HttpVersion::spelled_by(bytes, second + 1, len) {
        Some(version) => version,
        None => {
            return Err(HttpError::UnknownVersion);
        },
    };
    Ok(RequestLine { method, uri, version })
}

impl TryFrom<String> for RequestLine {
    type Error = HttpError;

    /// Parses the text of a request line. Whatever is wrong with it is a
    /// `ParserError`.
    fn try_from(value: String) -> (line: Result<RequestLine, HttpError>)
        ensures
            match request_line_of(encode_utf8(value@)) {
                Ok(view) => line is Ok && line.unwrap()@ == view,
                Err(_) => line == Err::<RequestLine, HttpError>(HttpError::ParserError),
            },
    {
        match parse_request_line(value.as_str().as_bytes()) {
            Ok(line) => Ok(line),
            Err(_) => Err(HttpError::ParserError),
        }
    }
}

impl TryFromSpecImpl<String> for RequestLine {
    open spec fn obeys_try_from_spec() -> bool {
        false
    }

    open spec fn try_from_spec(value: String) -> Result<RequestLine, HttpError> {
        Err(HttpError::ParserError)
    }
}

} // verus!
