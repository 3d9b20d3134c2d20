//! The raw request as it arrives from a client, and its decoding.

use std::collections::HashMap;
use vstd::prelude::*;
use vstd::slice::*;
use vstd::utf8::*;
use crate::error::HttpError;
use crate::partials::{HttpHeader, HttpMethod, HttpVersion};
use crate::scan::{find_byte, next_index, LF, SP};
use crate::text::utf8_range;

verus! {

/// A decoded request. The target is taken from the request line as it
/// stands. The headers of a request are not decoded: `headers` is empty.
#[derive(Debug)]
pub struct DecodedHttpRequest {
    pub size: usize,
    pub method: HttpMethod,
    pub target: String,
    pub version: HttpVersion,
    pub headers: HashMap<HttpHeader, String>,
}

/// A decoded request as plain values.
pub struct RequestView {
    pub size: usize,
    pub method: HttpMethod,
    pub target: Seq<char>,
    pub version: HttpVersion,
    pub headers: Map<HttpHeader, Seq<char>>,
}

impl View for DecodedHttpRequest {
    type V = RequestView;

    open spec fn view(&self) -> RequestView {
        RequestView {
            size: self.size,
            method: self.method,
            target: self.target@,
            version: self.version,
            headers: self.headers@.map_values(|value: String| value@),
        }
    }
}

/// What the bytes of a request decode to.
///
/// The first two bytes announce the method. The target stands between the
/// first space and the next one and must be UTF-8; the version stands between
/// that space and the next line feed. What follows the request line is kept
/// but not read.
pub open spec fn request_of(bytes: Seq<u8>) -> Result<RequestView, HttpError> {
    let first = next_index(bytes, 0, SP);
    let second = next_index(bytes, first + 1, SP);
    let end = next_index(bytes, second + 1, LF);
    if bytes.len() < 2 || HttpMethod::announced(bytes[0], bytes[1]) is None {
        Err(HttpError::BadFormat)
    } else if first >= bytes.len() || second >= bytes.len() || end >= bytes.len() {
        Err(HttpError::BadFormat)
    } else if !valid_utf8(bytes.subrange(first + 1, second)) {
        Err(HttpError::BadFormat)
    } else if HttpVersion::read(bytes.subrange(second + 1, end)) is None {
        Err(HttpError::UnknownVersion)
    } else {
        Ok(
            RequestView {
                size: bytes.len() as usize,
                method: HttpMethod::announced(bytes[0], bytes[1]).unwrap(),
                target: decode_utf8(bytes.subrange(first + 1, second)),
                version: HttpVersion::read(bytes.subrange(second + 1, end)).unwrap(),
                headers: Map::empty(),
            },
        )
    }
}

/// The bytes of a request, gathered read by read.
#[derive(Debug)]
pub struct RawHttpRequest {
    bytes: Vec<u8>,
}

impl View for RawHttpRequest {
    type V = Seq<u8>;

    closed spec fn view(&self) -> Seq<u8> {
        self.bytes@
    }
}

impl Default for RawHttpRequest {
    /// The empty request.
    fn default() -> (raw: RawHttpRequest)
        ensures
            raw@ == Seq::<u8>::empty(),
    {
        RawHttpRequest { bytes: Vec::new() }
    }
}

impl RawHttpRequest {
    /// Appends the `n` bytes of `bytes`, so that the size grows by `n`.
    pub fn add_bytes(&mut self, bytes: &[u8], n: usize)
        requires
            n == bytes@.len(),
        ensures
            final(self)@ == old(self)@ + bytes@,
    {
        self.bytes.extend_from_slice(bytes);
        assert(self.bytes@ =~= old(self).bytes@ + bytes@);
    }

    /// The bytes gathered so far.
    pub fn bytes(&self) -> (bytes: &[u8])
        ensures
            bytes@ == self@,
    {
        self.bytes.as_slice()
    }

    /// How many bytes were gathered.
    pub fn size(&self) -> (size: usize)
        ensures
            size == self@.len(),
    {
        self.bytes.len()
    }

    /// Decodes the request.
    pub fn decode(self) -> (decoded: Result<DecodedHttpRequest, HttpError>)
        ensures
            match request_of(self@) {
                Ok(view) => decoded is Ok && decoded.unwrap()@ == view,
                Err(e) => decoded == Err::<DecodedHttpRequest, HttpError>(e),
            },
    {
        let bytes = self.bytes.as_slice();
        if bytes.len() < 2 {
            return Err(HttpError::BadFormat);
        }
        let method = match HttpMethod::discriminate(bytes[0], bytes[1]) {
            Some(method) => method,
            None => {
                return Err(HttpError::BadFormat);
            },
        };
        let first: usize = match find_byte(bytes, 0, SP) {
            Some(first) => first,
            None => {
                return Err(HttpError::BadFormat);
            },
        };
        let second: usize = match find_byte(bytes, first + 1, SP) {
            Some(second) => second,
            None => {
                return Err(HttpError::BadFormat);
            },
        };
        let end: usize = match find_byte(bytes, second + 1, LF) {
            Some(end) => end,
            None => {
                return Err(HttpError::BadFormat);
            },
        };
        let target = match utf8_range(bytes, first + 1, second) {
            Some(target) => target,
            None => {
                return Err(HttpError::BadFormat);
            },
        };
        let version = match HttpVersion::try_from(slice_subrange(bytes, second + 1, end)) {
            Ok(version) => version,
            Err(e) => {
                return Err(e);
            },
        };
        let decoded = DecodedHttpRequest {
            size: bytes.len(),
            method,
            target,
            version,
            headers: HashMap::new(),
        };
        assert(decoded@.headers =~= Map::empty());
        Ok(decoded)
    }
}

} // verus!
