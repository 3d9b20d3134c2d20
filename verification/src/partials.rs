//! The closed vocabularies of the codec: methods, versions, status codes and
//! the recognised header names, each with its wire token.

use vstd::prelude::*;
use vstd::std_specs::convert::{FromSpecImpl, TryFromSpecImpl};
use vstd::utf8::*;
use crate::error::HttpError;
use crate::text::{
    begins_with, lemma_begins_with, lemma_spells_ascii, range_spells, same_text, spells, text_of,
};

verus! {

/// The response headers that the decoder recognises. A line whose name is not
/// one of these is dropped.
#[derive(Debug, Clone, Copy, PartialEq, Eq, Hash, Structural)]
pub enum HttpHeader {
    Accept,
    AcceptPatch,
    AcceptRanges,
    AccessControlAllowOrigin,
    AccessControlAllowCredentials,
    AccessControlAllowMethods,
    AccessControlAllowHeaders,
    AccessControlExposeHeaders,
    AccessControlMaxAge,
    Age,
    Allow,
    AltSvc,
    CacheControl,
    Connection,
    ContentDisposition,
    ContentEncoding,
    ContentLanguage,
    ContentLength,
    ContentLocation,
    ContentRange,
    ContentType,
    ContentSecurityPolicy,
    Date,
    DeltaBase,
    ETag,
    Expires,
    IM,
    LastModified,
    Link,
    Location,
    Pragma,
    ProxyAuthenticate,
    PublicKeyPins,
    RetryAfter,
    Refresh,
    Server,
    SetCookie,
    StrictTransportSecurity,
    Trailer,
    TransferEncoding,
    Tk,
    Upgrade,
    Vary,
    Via,
    Warning,
    WWWAuthenticate,
    XPoweredBy,
    XRequestID,
    XUACompatible,
    XXSSProtection,
}

/// A recognised header together with its trimmed value.
pub type HttpHeaderPair = (HttpHeader, String);

/// Header pairs as plain values, in their order.
pub open spec fn fields_of(pairs: Seq<HttpHeaderPair>) -> Seq<(HttpHeader, Seq<char>)> {
    Seq::new(pairs.len(), |i: int| (pairs[i].0, pairs[i].1@))
}

impl HttpHeader {
    /// The header's name as it is written on the wire, in its canonical
    /// capitalisation.
    pub open spec fn spec_name(self) -> Seq<char> {
        match self {
            HttpHeader::Accept => "Accept"@,
            HttpHeader::AcceptPatch => "Accept-Patch"@,
            HttpHeader::AcceptRanges => "Accept-Ranges"@,
            HttpHeader::AccessControlAllowOrigin => "Access-Control-Allow-Origin"@,
            HttpHeader::AccessControlAllowCredentials => "Access-Control-Allow-Credentials"@,
            HttpHeader::AccessControlAllowMethods => "Access-Control-Allow-Methods"@,
            HttpHeader::AccessControlAllowHeaders => "Access-Control-Allow-Headers"@,
            HttpHeader::AccessControlExposeHeaders => "Access-Control-Expose-Headers"@,
            HttpHeader::AccessControlMaxAge => "Access-Control-Max-Age"@,
            HttpHeader::Age => "Age"@,
            HttpHeader::Allow => "Allow"@,
            HttpHeader::AltSvc => "Alt-Svc"@,
            HttpHeader::CacheControl => "Cache-Control"@,
            HttpHeader::Connection => "Connection"@,
            HttpHeader::ContentDisposition => "Content-Disposition"@,
            HttpHeader::ContentEncoding => "Content-Encoding"@,
            HttpHeader::ContentLanguage => "Content-Language"@,
            HttpHeader::ContentLength => "Content-Length"@,
            HttpHeader::ContentLocation => "Content-Location"@,
            HttpHeader::ContentRange => "Content-Range"@,
            HttpHeader::ContentType => "Content-Type"@,
            HttpHeader::ContentSecurityPolicy => "Content-Security-Policy"@,
            HttpHeader::Date => "Date"@,
            HttpHeader::DeltaBase => "Delta-Base"@,
            HttpHeader::ETag => "ETag"@,
            HttpHeader::Expires => "Expires"@,
            HttpHeader::IM => "IM"@,
            HttpHeader::LastModified => "Last-Modified"@,
            HttpHeader::Link => "Link"@,
            HttpHeader::Location => "Location"@,
            HttpHeader::Pragma => "Pragma"@,
            HttpHeader::ProxyAuthenticate => "Proxy-Authenticate"@,
            HttpHeader::PublicKeyPins => "Public-Key-Pins"@,
            HttpHeader::RetryAfter => "Retry-After"@,
            HttpHeader::Refresh => "Refresh"@,
            HttpHeader::Server => "Server"@,
            HttpHeader::SetCookie => "Set-Cookie"@,
            HttpHeader::StrictTransportSecurity => "Strict-Transport-Security"@,
            HttpHeader::Trailer => "Trailer"@,
            HttpHeader::TransferEncoding => "Transfer-Encoding"@,
            HttpHeader::Tk => "Tk"@,
            HttpHeader::Upgrade => "Upgrade"@,
            HttpHeader::Vary => "Vary"@,
            HttpHeader::Via => "Via"@,
            HttpHeader::Warning => "Warning"@,
            HttpHeader::WWWAuthenticate => "WWW-Authenticate"@,
            HttpHeader::XPoweredBy => "X-Powered-By"@,
            HttpHeader::XRequestID => "X-Request-ID"@,
            HttpHeader::XUACompatible => "X-UA-Compatible"@,
            HttpHeader::XXSSProtection => "X-XSS-Protection"@,
        }
    }

    /// The header's canonical name.
    pub fn name(&self) -> (name: &'static str)
        ensures
            name@ == self.spec_name(),
    {
        match self {
            HttpHeader::Accept => "Accept",
            HttpHeader::AcceptPatch => "Accept-Patch",
            HttpHeader::AcceptRanges => "Accept-Ranges",
            HttpHeader::AccessControlAllowOrigin => "Access-Control-Allow-Origin",
            HttpHeader::AccessControlAllowCredentials => "Access-Control-Allow-Credentials",
            HttpHeader::AccessControlAllowMethods => "Access-Control-Allow-Methods",
            HttpHeader::AccessControlAllowHeaders => "Access-Control-Allow-Headers",
            HttpHeader::AccessControlExposeHeaders => "Access-Control-Expose-Headers",
            HttpHeader::AccessControlMaxAge => "Access-Control-Max-Age",
            HttpHeader::Age => "Age",
            HttpHeader::Allow => "Allow",
            HttpHeader::AltSvc => "Alt-Svc",
            HttpHeader::CacheControl => "Cache-Control",
            HttpHeader::Connection => "Connection",
            HttpHeader::ContentDisposition => "Content-Disposition",
            HttpHeader::ContentEncoding => "Content-Encoding",
            HttpHeader::ContentLanguage => "Content-Language",
            HttpHeader::ContentLength => "Content-Length",
            HttpHeader::ContentLocation => "Content-Location",
            HttpHeader::ContentRange => "Content-Range",
            HttpHeader::ContentType => "Content-Type",
            HttpHeader::ContentSecurityPolicy => "Content-Security-Policy",
            HttpHeader::Date => "Date",
            HttpHeader::DeltaBase => "Delta-Base",
            HttpHeader::ETag => "ETag",
            HttpHeader::Expires => "Expires",
            HttpHeader::IM => "IM",
            HttpHeader::LastModified => "Last-Modified",
            HttpHeader::Link => "Link",
            HttpHeader::Location => "Location",
            HttpHeader::Pragma => "Pragma",
            HttpHeader::ProxyAuthenticate => "Proxy-Authenticate",
            HttpHeader::PublicKeyPins => "Public-Key-Pins",
            HttpHeader::RetryAfter => "Retry-After",
            HttpHeader::Refresh => "Refresh",
            HttpHeader::Server => "Server",
            HttpHeader::SetCookie => "Set-Cookie",
            HttpHeader::StrictTransportSecurity => "Strict-Transport-Security",
            HttpHeader::Trailer => "Trailer",
            HttpHeader::TransferEncoding => "Transfer-Encoding",
            HttpHeader::Tk => "Tk",
            HttpHeader::Upgrade => "Upgrade",
            HttpHeader::Vary => "Vary",
            HttpHeader::Via => "Via",
            HttpHeader::Warning => "Warning",
            HttpHeader::WWWAuthenticate => "WWW-Authenticate",
            HttpHeader::XPoweredBy => "X-Powered-By",
            HttpHeader::XRequestID => "X-Request-ID",
            HttpHeader::XUACompatible => "X-UA-Compatible",
            HttpHeader::XXSSProtection => "X-XSS-Protection",
        }
    }
}

/// The protocol versions whose tokens the codec reads. Framing is that of
/// HTTP/1.x whatever the version says.
#[derive(Debug, Clone, Copy, PartialEq, Eq, Structural)]
pub enum HttpVersion {
    Http10,
    Http11,
    Http2,
    Http3,
}

impl HttpVersion {
    /// The version's token on the wire.
    pub open spec fn spec_token(self) -> Seq<char> {
        match self {
            HttpVersion::Http10 => "HTTP/1.0"@,
            HttpVersion::Http11 => "HTTP/1.1"@,
            HttpVersion::Http2 => "HTTP/2"@,
            HttpVersion::Http3 => "HTTP/3"@,
        }
    }

    /// The version that `text` is the token of.
    pub open spec fn named(text: Seq<char>) -> Option<HttpVersion> {
        if text == "HTTP/1.0"@ {
            Some(HttpVersion::Http10)
        } else if text == "HTTP/1.1"@ {
            Some(HttpVersion::Http11)
        } else if text == "HTTP/2"@ {
            Some(HttpVersion::Http2)
        } else if text == "HTTP/3"@ {
            Some(HttpVersion::Http3)
        } else {
            None
        }
    }

    /// The version that a field of raw bytes begins with. What follows the
    /// token is not looked at, so a carriage return left at the end of a line
    /// does no harm, and neither does the minor version after a `2` or a `3`.
    pub open spec fn read(field: Seq<u8>) -> Option<HttpVersion> {
        if begins_with(field, "HTTP/1.0"@) {
            Some(HttpVersion::Http10)
        } else if begins_with(field, "HTTP/1.1"@) {
            Some(HttpVersion::Http11)
        } else if begins_with(field, "HTTP/2"@) {
            Some(HttpVersion::Http2)
        } else if begins_with(field, "HTTP/3"@) {
            Some(HttpVersion::Http3)
        } else {
            None
        }
    }

    /// The version whose token the bytes are, from the first to the last.
    pub open spec fn spelled(bytes: Seq<u8>) -> Option<HttpVersion> {
        match text_of(bytes) {
            Some(text) => HttpVersion::named(text),
            None => None,
        }
    }

    /// The version's token.
    pub fn token(self) -> (token: &'static str)
        ensures
            token@ == self.spec_token(),
    {
        match self {
            HttpVersion::Http10 => "HTTP/1.0",
            HttpVersion::Http11 => "HTTP/1.1",
            HttpVersion::Http2 => "HTTP/2",
            HttpVersion::Http3 => "HTTP/3",
        }
    }

    /// Reads the version whose token the bytes `[from, to)` of `buf` are.
    pub fn spelled_by(buf: &[u8], from: usize, to: usize) -> (version: Option<HttpVersion>)
        requires
            from <= to <= buf@.len(),
        ensures
            version == HttpVersion::spelled(buf@.subrange(from as int, to as int)),
    {
        proof {
            let bytes = buf@.subrange(from as int, to as int);
            reveal_strlit("HTTP/1.0");
            reveal_strlit("HTTP/1.1");
            reveal_strlit("HTTP/2");
            reveal_strlit("HTTP/3");
            lemma_spells_ascii(bytes, "HTTP/1.0"@);
            lemma_spells_ascii(bytes, "HTTP/1.1"@);
            lemma_spells_ascii(bytes, "HTTP/2"@);
            lemma_spells_ascii(bytes, "HTTP/3"@);
        }
        if range_spells(buf, from, to, "HTTP/1.0") {
            Some(HttpVersion::Http10)
        } else if range_spells(buf, from, to, "HTTP/1.1") {
            Some(HttpVersion::Http11)
        } else if range_spells(buf, from, to, "HTTP/2") {
            Some(HttpVersion::Http2)
        } else if range_spells(buf, from, to, "HTTP/3") {
            Some(HttpVersion::Http3)
        } else {
            None
        }
    }
}

impl TryFrom<&[u8]> for HttpVersion {
    type Error = HttpError;

    /// Reads a version from the bytes of its field: the first five bytes
    /// must be `HTTP/`, and the sixth selects the major version. A field that
    /// begins with no version is an `UnknownVersion`.
    fn try_from(value: &[u8]) -> (version: Result<HttpVersion, HttpError>)
        ensures
            version == match HttpVersion::read(value@) {
                Some(v) => Ok::<HttpVersion, HttpError>(v),
                None => Err(HttpError::UnknownVersion),
            },
    {
        proof {
            reveal_strlit("HTTP/1.0");
            reveal_strlit("HTTP/1.1");
            reveal_strlit("HTTP/2");
            reveal_strlit("HTTP/3");
            lemma_begins_with(value@, "HTTP/1.0"@);
            lemma_begins_with(value@, "HTTP/1.1"@);
            lemma_begins_with(value@, "HTTP/2"@);
            lemma_begins_with(value@, "HTTP/3"@);
        }
        if value.len() >= 6 && value[0] == 0x48 && value[1] == 0x54 && value[2] == 0x54
            && value[3] == 0x50 && value[4] == 0x2F {
            if value[5] == 0x31 {
                if value.len() >= 8 && value[6] == 0x2E && value[7] == 0x30 {
                    Ok(HttpVersion::Http10)
                } else if value.len() >= 8 && value[6] == 0x2E && value[7] == 0x31 {
                    Ok(HttpVersion::Http11)
                } else {
                    Err(HttpError::UnknownVersion)
                }
            } else if value[5] == 0x32 {
                Ok(HttpVersion::Http2)
            } else if value[5] == 0x33 {
                Ok(HttpVersion::Http3)
            } else {
                Err(HttpError::UnknownVersion)
            }
        } else {
            Err(HttpError::UnknownVersion)
        }
    }
}

impl TryFromSpecImpl<&[u8]> for HttpVersion {
    open spec fn obeys_try_from_spec() -> bool {
        true
    }

    open spec fn try_from_spec(value: &[u8]) -> Result<HttpVersion, HttpError> {
        match HttpVersion::read(value@) {
            Some(v) => Ok(v),
            None => Err(HttpError::UnknownVersion),
        }
    }
}

impl TryFrom<&str> for HttpVersion {
    type Error = HttpError;

    /// Parses a version token; any other text is an `UnknownVersion`.
    fn try_from(value: &str) -> (version: Result<HttpVersion, HttpError>)
        ensures
            version == match HttpVersion::named(value@) {
                Some(v) => Ok::<HttpVersion, HttpError>(v),
                None => Err(HttpError::UnknownVersion),
            },
    {
        if same_text(value, "HTTP/1.0") {
            Ok(HttpVersion::Http10)
        } else if same_text(value, "HTTP/1.1") {
            Ok(HttpVersion::Http11)
        } else if same_text(value, "HTTP/2") {
            Ok(HttpVersion::Http2)
        } else if same_text(value, "HTTP/3") {
            Ok(HttpVersion::Http3)
        } else {
            Err(HttpError::UnknownVersion)
        }
    }
}

impl TryFromSpecImpl<&str> for HttpVersion {
    open spec fn obeys_try_from_spec() -> bool {
        true
    }

    open spec fn try_from_spec(value: &str) -> Result<HttpVersion, HttpError> {
        match HttpVersion::named(value@) {
            Some(v) => Ok(v),
            None => Err(HttpError::UnknownVersion),
        }
    }
}

impl From<HttpVersion> for &'static str {
    /// The version's token.
    fn from(value: HttpVersion) -> (token: &'static str)
        ensures
            token@ == value.spec_token(),
    {
        match value {
            HttpVersion::Http10 => "HTTP/1.0",
            HttpVersion::Http11 => "HTTP/1.1",
            HttpVersion::Http2 => "HTTP/2",
            HttpVersion::Http3 => "HTTP/3",
        }
    }
}

impl FromSpecImpl<HttpVersion> for &'static str {
    open spec fn obeys_from_spec() -> bool {
        true
    }

    open spec fn from_spec(value: HttpVersion) -> &'static str {
        match value {
            HttpVersion::Http10 => "HTTP/1.0",
            HttpVersion::Http11 => "HTTP/1.1",
            HttpVersion::Http2 => "HTTP/2",
            HttpVersion::Http3 => "HTTP/3",
        }
    }
}

/// The request methods that the codec knows.
#[derive(Debug, Clone, Copy, PartialEq, Eq, Structural)]
pub enum HttpMethod {
    Options,
    Get,
    Head,
    Post,
    Put,
    Delete,
    Trace,
    Connect,
    Patch,
}

impl HttpMethod {
    /// The method's token on the wire.
    pub open spec fn spec_token(self) -> Seq<char> {
        match self {
            HttpMethod::Options => "OPTIONS"@,
            HttpMethod::Get => "GET"@,
            HttpMethod::Head => "HEAD"@,
            HttpMethod::Post => "POST"@,
            HttpMethod::Put => "PUT"@,
            HttpMethod::Delete => "DELETE"@,
            HttpMethod::Trace => "TRACE"@,
            HttpMethod::Connect => "CONNECT"@,
            HttpMethod::Patch => "PATCH"@,
        }
    }

    /// The method that `text` is the token of.
    pub open spec fn named(text: Seq<char>) -> Option<HttpMethod> {
        if text == "OPTIONS"@ {
            Some(HttpMethod::Options)
        } else if text == "GET"@ {
            Some(HttpMethod::Get)
        } else if text == "HEAD"@ {
            Some(HttpMethod::Head)
        } else if text == "POST"@ {
            Some(HttpMethod::Post)
        } else if text == "PUT"@ {
            Some(HttpMethod::Put)
        } else if text == "DELETE"@ {
            Some(HttpMethod::Delete)
        } else if text == "TRACE"@ {
            Some(HttpMethod::Trace)
        } else if text == "CONNECT"@ {
            Some(HttpMethod::Connect)
        } else if text == "PATCH"@ {
            Some(HttpMethod::Patch)
        } else {
            None
        }
    }

    /// The method whose token the bytes are, from the first to the last.
    pub open spec fn spelled(bytes: Seq<u8>) -> Option<HttpMethod> {
        match text_of(bytes) {
            Some(text) => HttpMethod::named(text),
            None => None,
        }
    }

    /// The method that a request announces by its first two bytes. The first
    /// byte decides, but for `P`, where the second tells `POST`, `PUT` and
    /// `PATCH` apart.
    pub open spec fn announced(first: u8, second: u8) -> Option<HttpMethod> {
        if first == 0x43 {
            Some(HttpMethod::Connect)
        } else if first == 0x44 {
            Some(HttpMethod::Delete)
        } else if first == 0x47 {
            Some(HttpMethod::Get)
        } else if first == 0x48 {
            Some(HttpMethod::Head)
        } else if first == 0x4F {
            Some(HttpMethod::Options)
        } else if first == 0x54 {
            Some(HttpMethod::Trace)
        } else if first == 0x50 && second == 0x4F {
            Some(HttpMethod::Post)
        } else if first == 0x50 && second == 0x55 {
            Some(HttpMethod::Put)
        } else if first == 0x50 && second == 0x41 {
            Some(HttpMethod::Patch)
        } else {
            None
        }
    }

    /// The method's token.
    pub fn token(self) -> (token: &'static str)
        ensures
            token@ == self.spec_token(),
    {
        match self {
            HttpMethod::Options => "OPTIONS",
            HttpMethod::Get => "GET",
            HttpMethod::Head => "HEAD",
            HttpMethod::Post => "POST",
            HttpMethod::Put => "PUT",
            HttpMethod::Delete => "DELETE",
            HttpMethod::Trace => "TRACE",
            HttpMethod::Connect => "CONNECT",
            HttpMethod::Patch => "PATCH",
        }
    }

    /// Reads the method whose token the bytes `[from, to)` of `buf` are.
    pub fn spelled_by(buf: &[u8], from: usize, to: usize) -> (method: Option<HttpMethod>)
        requires
            from <= to <= buf@.len(),
        ensures
            method == HttpMethod::spelled(buf@.subrange(from as int, to as int)),
    {
        proof {
            let bytes = buf@.subrange(from as int, to as int);
            reveal_strlit("OPTIONS");
            reveal_strlit("GET");
            reveal_strlit("HEAD");
            reveal_strlit("POST");
            reveal_strlit("PUT");
            reveal_strlit("DELETE");
            reveal_strlit("TRACE");
            reveal_strlit("CONNECT");
            reveal_strlit("PATCH");
            lemma_spells_ascii(bytes, "OPTIONS"@);
            lemma_spells_ascii(bytes, "GET"@);
            lemma_spells_ascii(bytes, "HEAD"@);
            lemma_spells_ascii(bytes, "POST"@);
            lemma_spells_ascii(bytes, "PUT"@);
            lemma_spells_ascii(bytes, "DELETE"@);
            lemma_spells_ascii(bytes, "TRACE"@);
            lemma_spells_ascii(bytes, "CONNECT"@);
            lemma_spells_ascii(bytes, "PATCH"@);
        }
        if range_spells(buf, from, to, "OPTIONS") {
            Some(HttpMethod::Options)
        } else if range_spells(buf, from, to, "GET") {
            Some(HttpMethod::Get)
        } else if range_spells(buf, from, to, "HEAD") {
            Some(HttpMethod::Head)
        } else if range_spells(buf, from, to, "POST") {
            Some(HttpMethod::Post)
        } else if range_spells(buf, from, to, "PUT") {
            Some(HttpMethod::Put)
        } else if range_spells(buf, from, to, "DELETE") {
            Some(HttpMethod::Delete)
        } else if range_spells(buf, from, to, "TRACE") {
            Some(HttpMethod::Trace)
        } else if range_spells(buf, from, to, "CONNECT") {
            Some(HttpMethod::Connect)
        } else if range_spells(buf, from, to, "PATCH") {
            Some(HttpMethod::Patch)
        } else {
            None
        }
    }

    /// Tells the method of a request from its first two bytes.
    pub fn discriminate(first: u8, second: u8) -> (method: Option<HttpMethod>)
        ensures
            method == HttpMethod::announced(first, second),
    {
        match first {
            0x43 => Some(HttpMethod::Connect),
            0x44 => Some(HttpMethod::Delete),
            0x47 => Some(HttpMethod::Get),
            0x48 => Some(HttpMethod::Head),
            0x4F => Some(HttpMethod::Options),
            0x50 => match second {
                0x4F => Some(HttpMethod::Post),
                0x55 => Some(HttpMethod::Put),
                0x41 => Some(HttpMethod::Patch),
                _ => None,
            },
            0x54 => Some(HttpMethod::Trace),
            _ => None,
        }
    }
}

impl TryFrom<&str> for HttpMethod {
    type Error = HttpError;

    /// Parses a method token. Any other text is a `BadFormat`.
    fn try_from(value: &str) -> (method: Result<HttpMethod, HttpError>)
        ensures
            method == match HttpMethod::named(value@) {
                Some(m) => Ok::<HttpMethod, HttpError>(m),
                None => Err(HttpError::BadFormat),
            },
    {
        if same_text(value, "OPTIONS") {
            Ok(HttpMethod::Options)
        } else if same_text(value, "GET") {
            Ok(HttpMethod::Get)
        } else if same_text(value, "HEAD") {
            Ok(HttpMethod::Head)
        } else if same_text(value, "POST") {
            Ok(HttpMethod::Post)
        } else if same_text(value, "PUT") {
            Ok(HttpMethod::Put)
        } else if same_text(value, "DELETE") {
            Ok(HttpMethod::Delete)
        } else if same_text(value, "TRACE") {
            Ok(HttpMethod::Trace)
        } else if same_text(value, "CONNECT") {
            Ok(HttpMethod::Connect)
        } else if same_text(value, "PATCH") {
            Ok(HttpMethod::Patch)
        } else {
            Err(HttpError::BadFormat)
        }
    }
}

impl TryFromSpecImpl<&str> for HttpMethod {
    open spec fn obeys_try_from_spec() -> bool {
        true
    }

    open spec fn try_from_spec(value: &str) -> Result<HttpMethod, HttpError> {
        match HttpMethod::named(value@) {
            Some(m) => Ok(m),
            None => Err(HttpError::BadFormat),
        }
    }
}

impl From<HttpMethod> for &'static str {
    /// The method's token.
    fn from(value: HttpMethod) -> (token: &'static str)
        ensures
            token@ == value.spec_token(),
    {
        match value {
            HttpMethod::Options => "OPTIONS",
            HttpMethod::Get => "GET",
            HttpMethod::Head => "HEAD",
            HttpMethod::Post => "POST",
            HttpMethod::Put => "PUT",
            HttpMethod::Delete => "DELETE",
            HttpMethod::Trace => "TRACE",
            HttpMethod::Connect => "CONNECT",
            HttpMethod::Patch => "PATCH",
        }
    }
}

impl FromSpecImpl<HttpMethod> for &'static str {
    open spec fn obeys_from_spec() -> bool {
        true
    }

    open spec fn from_spec(value: HttpMethod) -> &'static str {
        match value {
            HttpMethod::Options => "OPTIONS",
            HttpMethod::Get => "GET",
            HttpMethod::Head => "HEAD",
            HttpMethod::Post => "POST",
            HttpMethod::Put => "PUT",
            HttpMethod::Delete => "DELETE",
            HttpMethod::Trace => "TRACE",
            HttpMethod::Connect => "CONNECT",
            HttpMethod::Patch => "PATCH",
        }
    }
}

/// A status code, as far as the proxy tells codes apart.
#[derive(Debug, Clone, Copy, PartialEq, Eq, Structural)]
pub enum HttpStatusCode {
    Ok200,
    Unknown,
}

impl HttpStatusCode {
    /// What the bytes of a status field stand for: the three digits `200` are
    /// `Ok200`, anything else is `Unknown`.
    pub open spec fn read(code: Seq<u8>) -> HttpStatusCode {
        if code.len() == 3 && code[0] == 0x32 && code[1] == 0x30 && code[2] == 0x30 {
            HttpStatusCode::Ok200
        } else {
            HttpStatusCode::Unknown
        }
    }
}

impl From<&[u8]> for HttpStatusCode {
    /// Reads a status code from the bytes of its field.
    fn from(value: &[u8]) -> (status: HttpStatusCode)
        ensures
            status == HttpStatusCode::read(value@),
    {
        if value.len() == 3 && value[0] == 0x32 && value[1] == 0x30 && value[2] == 0x30 {
            HttpStatusCode::Ok200
        } else {
            HttpStatusCode::Unknown
        }
    }
}

impl FromSpecImpl<&[u8]> for HttpStatusCode {
    open spec fn obeys_from_spec() -> bool {
        true
    }

    open spec fn from_spec(value: &[u8]) -> HttpStatusCode {
        HttpStatusCode::read(value@)
    }
}

/// A version's token is read back as that version, as text and as the bytes
/// that spell it, with or without more bytes behind them. `token` and the
/// conversion to `&str` write that token.
pub proof fn lemma_version_round_trip(version: HttpVersion, field: Seq<u8>)
    requires
        begins_with(field, version.spec_token()),
    ensures
        HttpVersion::named(version.spec_token()) == Some(version),
        HttpVersion::read(field) == Some(version),
        spells(field, version.spec_token()) ==> HttpVersion::spelled(field) == Some(version),
{
    reveal_strlit("HTTP/1.0");
    reveal_strlit("HTTP/1.1");
    reveal_strlit("HTTP/2");
    reveal_strlit("HTTP/3");
    lemma_begins_with(field, "HTTP/1.0"@);
    lemma_begins_with(field, "HTTP/1.1"@);
    lemma_begins_with(field, "HTTP/2"@);
    lemma_begins_with(field, "HTTP/3"@);
    assert("HTTP/1.0"@[7] != "HTTP/1.1"@[7]);
    assert(field[5] as char == version.spec_token()[5]);
    if version == HttpVersion::Http10 || version == HttpVersion::Http11 {
        assert(field[7] as char == version.spec_token()[7]);
    }
    lemma_spells_ascii(field, version.spec_token());
}

/// A method's token is read back as that method, and a request that begins
/// with the token announces that method by its first two bytes.
pub proof fn lemma_method_round_trip(method: HttpMethod, field: Seq<u8>)
    requires
        begins_with(field, method.spec_token()),
    ensures
        HttpMethod::named(method.spec_token()) == Some(method),
        HttpMethod::announced(field[0], field[1]) == Some(method),
        spells(field, method.spec_token()) ==> HttpMethod::spelled(field) == Some(method),
{
    reveal_strlit("OPTIONS");
    reveal_strlit("GET");
    reveal_strlit("HEAD");
    reveal_strlit("POST");
    reveal_strlit("PUT");
    reveal_strlit("DELETE");
    reveal_strlit("TRACE");
    reveal_strlit("CONNECT");
    reveal_strlit("PATCH");
    let token = method.spec_token();
    lemma_begins_with(field, token);
    assert(field[0] as char == token[0] && field[1] as char == token[1]);
    assert("POST"@[1] != "PUT"@[1] && "PUT"@[1] != "PATCH"@[1] && "PATCH"@[1] != "POST"@[1]);
    lemma_spells_ascii(field, token);
}

} // verus!
