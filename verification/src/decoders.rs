//! Decoding of one header line: a discriminator tree over the leading bytes of
//! the recognised names, then an exact comparison of the name, then the value.

use vstd::prelude::*;
use vstd::utf8::*;
use vstd::string::*;
use crate::partials::{HttpHeader, HttpHeaderPair};
use crate::text::{spells, text_of, range_spells, utf8_range};

verus! {

/// The byte that ends a header's name.
pub const COLON: u8 = 0x3A;

/// ASCII whitespace: space, tab, line feed, form feed and carriage return.
pub open spec fn whitespace(b: u8) -> bool {
    b == 0x20 || b == 0x09 || b == 0x0A || b == 0x0C || b == 0x0D
}

/// `s` without the whitespace it begins with.
pub open spec fn trim_start(s: Seq<u8>) -> Seq<u8>
    decreases s.len(),
{
    if s.len() > 0 && whitespace(s[0]) {
        trim_start(s.drop_first())
    } else {
        s
    }
}

/// `s` without the whitespace it ends with.
pub open spec fn trim_end(s: Seq<u8>) -> Seq<u8>
    decreases s.len(),
{
    if s.len() > 0 && whitespace(s.last()) {
        trim_end(s.drop_last())
    } else {
        s
    }
}

/// `s` without the whitespace at either end.
pub open spec fn trimmed(s: Seq<u8>) -> Seq<u8> {
    trim_end(trim_start(s))
}

/// The value that the raw bytes after a header's colon hold: their text
/// without the whitespace around it. There is none where nothing is left
/// after trimming, or where what is left is not UTF-8.
pub open spec fn field_value(raw: Seq<u8>) -> Option<Seq<char>> {
    if trimmed(raw).len() > 0 {
        text_of(trimmed(raw))
    } else {
        None
    }
}

/// The bytes of `buf` from index `l` to index `r`, both included; empty where
/// `l` lies beyond `r`.
pub open spec fn region(buf: Seq<u8>, l: int, r: int) -> Seq<u8> {
    if 0 <= l <= r < buf.len() {
        buf.subrange(l, r + 1)
    } else {
        Seq::empty()
    }
}

/// Whether `line` begins with the name of `kind`, character for character,
/// followed by a colon.
pub open spec fn names(kind: HttpHeader, line: Seq<u8>) -> bool {
    let name = kind.spec_name();
    &&& name.len() < line.len()
    &&& forall|i: int| 0 <= i < name.len() ==> #[trigger] line[i] as char == name[i]
    &&& line[name.len() as int] == COLON
}

/// The header that `line` names, if it names a recognised one.
pub open spec fn line_kind(line: Seq<u8>) -> Option<HttpHeader> {
    if exists|k: HttpHeader| names(k, line) {
        Some(choose|k: HttpHeader| names(k, line))
    } else {
        None
    }
}

/// What a header line decodes to: the header it names and the value after
/// the colon. A line that names no recognised header, or holds no value,
/// decodes to nothing.
pub open spec fn field_of(line: Seq<u8>) -> Option<(HttpHeader, Seq<char>)> {
    match line_kind(line) {
        Some(k) => match field_value(line.skip(k.spec_name().len() as int + 1)) {
            Some(v) => Some((k, v)),
            None => None,
        },
        None => None,
    }
}

/// Whether `pair` holds the header and the text of `field`.
pub open spec fn pair_is(pair: Option<HttpHeaderPair>, field: Option<(HttpHeader, Seq<char>)>) -> bool {
    match field {
        Some((k, v)) => pair is Some && pair.unwrap().0 == k && pair.unwrap().1@ == v,
        None => pair is None,
    }
}

/// The length of `kind`'s name and the characters by which the tree tells it
/// from the others.
proof fn lemma_name_marks(kind: HttpHeader)
    ensures
        ({
            let name = kind.spec_name();
            match kind {
                HttpHeader::Accept => name.len() == 6
                    && name[0] == 'A'
                    && name[1] == 'c'
                    && name[4] == 'p',
                HttpHeader::AcceptPatch => name.len() == 12
                    && name[0] == 'A'
                    && name[1] == 'c'
                    && name[4] == 'p'
                    && name[6] == '-'
                    && name[7] == 'P',
                HttpHeader::AcceptRanges => name.len() == 13
                    && name[0] == 'A'
                    && name[1] == 'c'
                    && name[4] == 'p'
                    && name[6] == '-'
                    && name[7] == 'R',
                HttpHeader::AccessControlAllowOrigin => name.len() == 27
                    && name[0] == 'A'
                    && name[1] == 'c'
                    && name[4] == 's'
                    && name[15] == 'A'
                    && name[21] == 'O',
                HttpHeader::AccessControlAllowCredentials => name.len() == 32
                    && name[0] == 'A'
                    && name[1] == 'c'
                    && name[4] == 's'
                    && name[15] == 'A'
                    && name[21] == 'C',
                HttpHeader::AccessControlAllowMethods => name.len() == 28
                    && name[0] == 'A'
                    && name[1] == 'c'
                    && name[4] == 's'
                    && name[15] == 'A'
                    && name[21] == 'M',
                HttpHeader::AccessControlAllowHeaders => name.len() == 28
                    && name[0] == 'A'
                    && name[1] == 'c'
                    && name[4] == 's'
                    && name[15] == 'A'
                    && name[21] == 'H',
                HttpHeader::AccessControlExposeHeaders => name.len() == 29
                    && name[0] == 'A'
                    && name[1] == 'c'
                    && name[4] == 's'
                    && name[15] == 'E',
                HttpHeader::AccessControlMaxAge => name.len() == 22
                    && name[0] == 'A'
                    && name[1] == 'c'
                    && name[4] == 's'
                    && name[15] == 'M',
                HttpHeader::Age => name.len() == 3 && name[0] == 'A' && name[1] == 'g',
                HttpHeader::Allow => name.len() == 5
                    && name[0] == 'A'
                    && name[1] == 'l'
                    && name[2] == 'l',
                HttpHeader::AltSvc => name.len() == 7
                    && name[0] == 'A'
                    && name[1] == 'l'
                    && name[2] == 't',
                HttpHeader::CacheControl => name.len() == 13 && name[0] == 'C' && name[1] == 'a',
                HttpHeader::Connection => name.len() == 10
                    && name[0] == 'C'
                    && name[1] == 'o'
                    && name[3] == 'n',
                HttpHeader::ContentDisposition => name.len() == 19
                    && name[0] == 'C'
                    && name[1] == 'o'
                    && name[3] == 't'
                    && name[8] == 'D',
                HttpHeader::ContentEncoding => name.len() == 16
                    && name[0] == 'C'
                    && name[1] == 'o'
                    && name[3] == 't'
                    && name[8] == 'E',
                HttpHeader::ContentLanguage => name.len() == 16
                    && name[0] == 'C'
                    && name[1] == 'o'
                    && name[3] == 't'
                    && name[8] == 'L'
                    && name[9] == 'a',
                HttpHeader::ContentLength => name.len() == 14
                    && name[0] == 'C'
                    && name[1] == 'o'
                    && name[3] == 't'
                    && name[8] == 'L'
                    && name[9] == 'e',
                HttpHeader::ContentLocation => name.len() == 16
                    && name[0] == 'C'
                    && name[1] == 'o'
                    && name[3] == 't'
                    && name[8] == 'L'
                    && name[9] == 'o',
                HttpHeader::ContentRange => name.len() == 13
                    && name[0] == 'C'
                    && name[1] == 'o'
                    && name[3] == 't'
                    && name[8] == 'R',
                HttpHeader::ContentType => name.len() == 12
                    && name[0] == 'C'
                    && name[1] == 'o'
                    && name[3] == 't'
                    && name[8] == 'T',
                HttpHeader::ContentSecurityPolicy => name.len() == 23
                    && name[0] == 'C'
                    && name[1] == 'o'
                    && name[3] == 't'
                    && name[8] == 'S',
                HttpHeader::Date => name.len() == 4 && name[0] == 'D' && name[1] == 'a',
                HttpHeader::DeltaBase => name.len() == 10 && name[0] == 'D' && name[1] == 'e',
                HttpHeader::ETag => name.len() == 4 && name[0] == 'E' && name[1] == 'T',
                HttpHeader::Expires => name.len() == 7 && name[0] == 'E' && name[1] == 'x',
                HttpHeader::IM => name.len() == 2 && name[0] == 'I',
                HttpHeader::LastModified => name.len() == 13 && name[0] == 'L' && name[1] == 'a',
                HttpHeader::Link => name.len() == 4 && name[0] == 'L' && name[1] == 'i',
                HttpHeader::Location => name.len() == 8 && name[0] == 'L' && name[1] == 'o',
                HttpHeader::Pragma => name.len() == 6
                    && name[0] == 'P'
                    && name[1] == 'r'
                    && name[2] == 'a',
                HttpHeader::ProxyAuthenticate => name.len() == 18
                    && name[0] == 'P'
                    && name[1] == 'r'
                    && name[2] == 'o',
                HttpHeader::PublicKeyPins => name.len() == 15 && name[0] == 'P' && name[1] == 'u',
                HttpHeader::RetryAfter => name.len() == 11 && name[0] == 'R' && name[2] == 't',
                HttpHeader::Refresh => name.len() == 7 && name[0] == 'R' && name[2] == 'f',
                HttpHeader::Server => name.len() == 6
                    && name[0] == 'S'
                    && name[1] == 'e'
                    && name[2] == 'r',
                HttpHeader::SetCookie => name.len() == 10
                    && name[0] == 'S'
                    && name[1] == 'e'
                    && name[2] == 't',
                HttpHeader::StrictTransportSecurity => name.len() == 25
                    && name[0] == 'S'
                    && name[1] == 't',
                HttpHeader::Trailer => name.len() == 7
                    && name[0] == 'T'
                    && name[1] == 'r'
                    && name[3] == 'i',
                HttpHeader::TransferEncoding => name.len() == 17
                    && name[0] == 'T'
                    && name[1] == 'r'
                    && name[3] == 'n',
                HttpHeader::Tk => name.len() == 2 && name[0] == 'T' && name[1] == 'k',
                HttpHeader::Upgrade => name.len() == 7 && name[0] == 'U',
                HttpHeader::Vary => name.len() == 4 && name[0] == 'V' && name[1] == 'a',
                HttpHeader::Via => name.len() == 3 && name[0] == 'V' && name[1] == 'i',
                HttpHeader::Warning => name.len() == 7 && name[0] == 'W' && name[1] == 'a',
                HttpHeader::WWWAuthenticate => name.len() == 16 && name[0] == 'W' && name[1] == 'W',
                HttpHeader::XPoweredBy => name.len() == 12 && name[0] == 'X' && name[2] == 'P',
                HttpHeader::XRequestID => name.len() == 12 && name[0] == 'X' && name[2] == 'R',
                HttpHeader::XUACompatible => name.len() == 15 && name[0] == 'X' && name[2] == 'U',
                HttpHeader::XXSSProtection => name.len() == 16 && name[0] == 'X' && name[2] == 'X',
            }
        }),
{
    reveal_strlit("Accept");
    reveal_strlit("Accept-Patch");
    reveal_strlit("Accept-Ranges");
    reveal_strlit("Access-Control-Allow-Origin");
    reveal_strlit("Access-Control-Allow-Credentials");
    reveal_strlit("Access-Control-Allow-Methods");
    reveal_strlit("Access-Control-Allow-Headers");
    reveal_strlit("Access-Control-Expose-Headers");
    reveal_strlit("Access-Control-Max-Age");
    reveal_strlit("Age");
    reveal_strlit("Allow");
    reveal_strlit("Alt-Svc");
    reveal_strlit("Cache-Control");
    reveal_strlit("Connection");
    reveal_strlit("Content-Disposition");
    reveal_strlit("Content-Encoding");
    reveal_strlit("Content-Language");
    reveal_strlit("Content-Length");
    reveal_strlit("Content-Location");
    reveal_strlit("Content-Range");
    reveal_strlit("Content-Type");
    reveal_strlit("Content-Security-Policy");
    reveal_strlit("Date");
    reveal_strlit("Delta-Base");
    reveal_strlit("ETag");
    reveal_strlit("Expires");
    reveal_strlit("IM");
    reveal_strlit("Last-Modified");
    reveal_strlit("Link");
    reveal_strlit("Location");
    reveal_strlit("Pragma");
    reveal_strlit("Proxy-Authenticate");
    reveal_strlit("Public-Key-Pins");
    reveal_strlit("Retry-After");
    reveal_strlit("Refresh");
    reveal_strlit("Server");
    reveal_strlit("Set-Cookie");
    reveal_strlit("Strict-Transport-Security");
    reveal_strlit("Trailer");
    reveal_strlit("Transfer-Encoding");
    reveal_strlit("Tk");
    reveal_strlit("Upgrade");
    reveal_strlit("Vary");
    reveal_strlit("Via");
    reveal_strlit("Warning");
    reveal_strlit("WWW-Authenticate");
    reveal_strlit("X-Powered-By");
    reveal_strlit("X-Request-ID");
    reveal_strlit("X-UA-Compatible");
    reveal_strlit("X-XSS-Protection");
}

/// Every name is ASCII and holds no colon.
pub proof fn lemma_name_plain(kind: HttpHeader)
    ensures
        is_ascii_chars(kind.spec_name()),
        forall|i: int| 0 <= i < kind.spec_name().len() ==> kind.spec_name()[i] != ':',
{
    reveal_strlit("Accept");
    reveal_strlit("Accept-Patch");
    reveal_strlit("Accept-Ranges");
    reveal_strlit("Access-Control-Allow-Origin");
    reveal_strlit("Access-Control-Allow-Credentials");
    reveal_strlit("Access-Control-Allow-Methods");
    reveal_strlit("Access-Control-Allow-Headers");
    reveal_strlit("Access-Control-Expose-Headers");
    reveal_strlit("Access-Control-Max-Age");
    reveal_strlit("Age");
    reveal_strlit("Allow");
    reveal_strlit("Alt-Svc");
    reveal_strlit("Cache-Control");
    reveal_strlit("Connection");
    reveal_strlit("Content-Disposition");
    reveal_strlit("Content-Encoding");
    reveal_strlit("Content-Language");
    reveal_strlit("Content-Length");
    reveal_strlit("Content-Location");
    reveal_strlit("Content-Range");
    reveal_strlit("Content-Type");
    reveal_strlit("Content-Security-Policy");
    reveal_strlit("Date");
    reveal_strlit("Delta-Base");
    reveal_strlit("ETag");
    reveal_strlit("Expires");
    reveal_strlit("IM");
    reveal_strlit("Last-Modified");
    reveal_strlit("Link");
    reveal_strlit("Location");
    reveal_strlit("Pragma");
    reveal_strlit("Proxy-Authenticate");
    reveal_strlit("Public-Key-Pins");
    reveal_strlit("Retry-After");
    reveal_strlit("Refresh");
    reveal_strlit("Server");
    reveal_strlit("Set-Cookie");
    reveal_strlit("Strict-Transport-Security");
    reveal_strlit("Trailer");
    reveal_strlit("Transfer-Encoding");
    reveal_strlit("Tk");
    reveal_strlit("Upgrade");
    reveal_strlit("Vary");
    reveal_strlit("Via");
    reveal_strlit("Warning");
    reveal_strlit("WWW-Authenticate");
    reveal_strlit("X-Powered-By");
    reveal_strlit("X-Request-ID");
    reveal_strlit("X-UA-Compatible");
    reveal_strlit("X-XSS-Protection");
}

/// No two headers have the same name.
pub proof fn lemma_name_unique(a: HttpHeader, b: HttpHeader)
    requires
        a.spec_name() == b.spec_name(),
    ensures
        a == b,
{
    lemma_name_marks(a);
    lemma_name_marks(b);
}

/// A line names at most one header.
pub proof fn lemma_names_one(line: Seq<u8>, a: HttpHeader, b: HttpHeader)
    requires
        names(a, line),
        names(b, line),
    ensures
        a == b,
{
    let x = a.spec_name();
    let y = b.spec_name();
    lemma_name_plain(a);
    lemma_name_plain(b);
    if x.len() < y.len() {
        assert(line[x.len() as int] as char == y[x.len() as int]);
    } else if y.len() < x.len() {
        assert(line[y.len() as int] as char == x[y.len() as int]);
    } else {
        assert forall|i: int| 0 <= i < x.len() implies x[i] == y[i] by {
            assert(line[i] as char == x[i]);
        }
        assert(x =~= y);
        lemma_name_unique(a, b);
    }
}

/// The header decoder is closed over the recognised names: a line that names
/// none of them decodes to nothing, and a line that names one decodes to that
/// header with the trimmed value, wherever that value is not empty and is
/// UTF-8.
pub proof fn lemma_header_recognition(line: Seq<u8>, kind: HttpHeader)
    ensures
        (forall|k: HttpHeader| !names(k, line)) ==> field_of(line) is None,
        names(kind, line) ==> line_kind(line) == Some(kind),
        ({
            let value = trimmed(line.skip(kind.spec_name().len() as int + 1));
            names(kind, line) && value.len() > 0 && valid_utf8(value) ==> field_of(line) == Some(
                (kind, decode_utf8(value)),
            )
        }),
        field_of(line) is Some ==> names(field_of(line).unwrap().0, line),
{
    if names(kind, line) {
        let k = choose|k: HttpHeader| names(k, line);
        lemma_names_one(line, k, kind);
    }
}

/// A line names `kind` where a colon stands as far behind its start as the
/// name is long, and the bytes before the colon spell the name.
proof fn lemma_names_at(buf: Seq<u8>, s: int, e: int, kind: HttpHeader)
    requires
        0 <= s <= e <= buf.len(),
    ensures
        ({
            let n = kind.spec_name().len();
            names(kind, buf.subrange(s, e)) <==> n < e - s && buf[s + n] == COLON && spells(
                buf.subrange(s, s + n),
                kind.spec_name(),
            )
        }),
{
    let name = kind.spec_name();
    let n = name.len();
    let line = buf.subrange(s, e);
    if n < e - s {
        let head = buf.subrange(s, s + n);
        assert(forall|i: int| 0 <= i < n ==> head[i] == line[i]);
        if names(kind, line) {
            assert forall|i: int| 0 <= i < n implies #[trigger] head[i] as char == name[i] by {
                assert(line[i] as char == name[i]);
            }
        }
        if spells(head, name) {
            assert forall|i: int| 0 <= i < n implies #[trigger] line[i] as char == name[i] by {
                assert(head[i] as char == name[i]);
            }
        }
    }
}

/// The byte at `offset` within the line `[s, e)`, or 0 beyond its end.
fn peek(buf: &[u8], s: usize, e: usize, offset: usize) -> (b: u8)
    requires
        s <= e <= buf@.len(),
    ensures
        b == if offset < e - s {
            buf@[s + offset]
        } else {
            0u8
        },
{
    if offset < e - s {
        buf[s + offset]
    } else {
        0
    }
}

/// The discriminator tree: the one header that the leading bytes of the line
/// `[s, e)` leave possible, if any. It looks only at the bytes that tell the
/// names apart; whether the line spells the whole name is for the caller to
/// check.
fn candidate(buf: &[u8], s: usize, e: usize) -> (kind: Option<HttpHeader>)
    requires
        s <= e <= buf@.len(),
    ensures
        forall|k: HttpHeader| names(k, buf@.subrange(s as int, e as int)) ==> kind == Some(k),
{
    let kind =
    match peek(buf, s, e, 0) {
        0x41 /* A */ => {
            match peek(buf, s, e, 1) {
                0x63 /* c */ => {
                    match peek(buf, s, e, 4) {
                        0x70 /* p */ => {
                            match peek(buf, s, e, 6) {
                                0x3A /* : */ => Some(HttpHeader::Accept),
                                0x2D /* - */ => {
                                    match peek(buf, s, e, 7) {
                                        0x50 /* P */ => Some(HttpHeader::AcceptPatch),
                                        0x52 /* R */ => Some(HttpHeader::AcceptRanges),
                                        _ => None,
                                    }
                                }
                                _ => None,
                            }
                        }
                        0x73 /* s */ => {
                            match peek(buf, s, e, 15) {
                                0x41 /* A */ => {
                                    match peek(buf, s, e, 21) {
                                        0x4F /* O */ => Some(HttpHeader::AccessControlAllowOrigin),
                                        0x43 /* C */ => Some(HttpHeader::AccessControlAllowCredentials),
                                        0x4D /* M */ => Some(HttpHeader::AccessControlAllowMethods),
                                        0x48 /* H */ => Some(HttpHeader::AccessControlAllowHeaders),
                                        _ => None,
                                    }
                                }
                                0x45 /* E */ => Some(HttpHeader::AccessControlExposeHeaders),
                                0x4D /* M */ => Some(HttpHeader::AccessControlMaxAge),
                                _ => None,
                            }
                        }
                        _ => None,
                    }
                }
                0x67 /* g */ => Some(HttpHeader::Age),
                0x6C /* l */ => {
                    match peek(buf, s, e, 2) {
                        0x6C /* l */ => Some(HttpHeader::Allow),
                        0x74 /* t */ => Some(HttpHeader::AltSvc),
                        _ => None,
                    }
                }
                _ => None,
            }
        }
        0x43 /* C */ => {
            match peek(buf, s, e, 1) {
                0x61 /* a */ => Some(HttpHeader::CacheControl),
                0x6F /* o */ => {
                    match peek(buf, s, e, 3) {
                        0x6E /* n */ => Some(HttpHeader::Connection),
                        0x74 /* t */ => {
                            match peek(buf, s, e, 8) {
                                0x44 /* D */ => Some(HttpHeader::ContentDisposition),
                                0x45 /* E */ => Some(HttpHeader::ContentEncoding),
                                0x4C /* L */ => {
                                    match peek(buf, s, e, 9) {
                                        0x61 /* a */ => Some(HttpHeader::ContentLanguage),
                                        0x65 /* e */ => Some(HttpHeader::ContentLength),
                                        0x6F /* o */ => Some(HttpHeader::ContentLocation),
                                        _ => None,
                                    }
                                }
                                0x52 /* R */ => Some(HttpHeader::ContentRange),
                                0x54 /* T */ => Some(HttpHeader::ContentType),
                                0x53 /* S */ => Some(HttpHeader::ContentSecurityPolicy),
                                _ => None,
                            }
                        }
                        _ => None,
                    }
                }
                _ => None,
            }
        }
        0x44 /* D */ => {
            match peek(buf, s, e, 1) {
                0x61 /* a */ => Some(HttpHeader::Date),
                0x65 /* e */ => Some(HttpHeader::DeltaBase),
                _ => None,
            }
        }
        0x45 /* E */ => {
            match peek(buf, s, e, 1) {
                0x54 /* T */ => Some(HttpHeader::ETag),
                0x78 /* x */ => Some(HttpHeader::Expires),
                _ => None,
            }
        }
        0x49 /* I */ => Some(HttpHeader::IM),
        0x4C /* L */ => {
            match peek(buf, s, e, 1) {
                0x61 /* a */ => Some(HttpHeader::LastModified),
                0x69 /* i */ => Some(HttpHeader::Link),
                0x6F /* o */ => Some(HttpHeader::Location),
                _ => None,
            }
        }
        0x50 /* P */ => {
            match peek(buf, s, e, 1) {
                0x72 /* r */ => {
                    match peek(buf, s, e, 2) {
                        0x61 /* a */ => Some(HttpHeader::Pragma),
                        0x6F /* o */ => Some(HttpHeader::ProxyAuthenticate),
                        _ => None,
                    }
                }
                0x75 /* u */ => Some(HttpHeader::PublicKeyPins),
                _ => None,
            }
        }
        0x52 /* R */ => {
            match peek(buf, s, e, 2) {
                0x74 /* t */ => Some(HttpHeader::RetryAfter),
                0x66 /* f */ => Some(HttpHeader::Refresh),
                _ => None,
            }
        }
        0x53 /* S */ => {
            match peek(buf, s, e, 1) {
                0x65 /* e */ => {
                    match peek(buf, s, e, 2) {
                        0x72 /* r */ => Some(HttpHeader::Server),
                        0x74 /* t */ => Some(HttpHeader::SetCookie),
                        _ => None,
                    }
                }
                0x74 /* t */ => Some(HttpHeader::StrictTransportSecurity),
                _ => None,
            }
        }
        0x54 /* T */ => {
            match peek(buf, s, e, 1) {
                0x72 /* r */ => {
                    match peek(buf, s, e, 3) {
                        0x69 /* i */ => Some(HttpHeader::Trailer),
                        0x6E /* n */ => Some(HttpHeader::TransferEncoding),
                        _ => None,
                    }
                }
                0x6B /* k */ => Some(HttpHeader::Tk),
                _ => None,
            }
        }
        0x55 /* U */ => Some(HttpHeader::Upgrade),
        0x56 /* V */ => {
            match peek(buf, s, e, 1) {
                0x61 /* a */ => Some(HttpHeader::Vary),
                0x69 /* i */ => Some(HttpHeader::Via),
                _ => None,
            }
        }
        0x57 /* W */ => {
            match peek(buf, s, e, 1) {
                0x61 /* a */ => Some(HttpHeader::Warning),
                0x57 /* W */ => Some(HttpHeader::WWWAuthenticate),
                _ => None,
            }
        }
        0x58 /* X */ => {
            match peek(buf, s, e, 2) {
                0x50 /* P */ => Some(HttpHeader::XPoweredBy),
                0x52 /* R */ => Some(HttpHeader::XRequestID),
                0x55 /* U */ => Some(HttpHeader::XUACompatible),
                0x58 /* X */ => Some(HttpHeader::XXSSProtection),
                _ => None,
            }
        }
        _ => None,
    };
    proof {
        let line = buf@.subrange(s as int, e as int);
        assert forall|k: HttpHeader| names(k, line) implies kind == Some(k) by {
            lemma_name_marks(k);
            assert(line.len() > 0 ==> line[0] == buf@[s + 0]);
            assert(line.len() > 1 ==> line[1] == buf@[s + 1]);
            assert(line.len() > 2 ==> line[2] == buf@[s + 2]);
            assert(line.len() > 3 ==> line[3] == buf@[s + 3]);
            assert(line.len() > 4 ==> line[4] == buf@[s + 4]);
            assert(line.len() > 6 ==> line[6] == buf@[s + 6]);
            assert(line.len() > 7 ==> line[7] == buf@[s + 7]);
            assert(line.len() > 8 ==> line[8] == buf@[s + 8]);
            assert(line.len() > 9 ==> line[9] == buf@[s + 9]);
            assert(line.len() > 15 ==> line[15] == buf@[s + 15]);
            assert(line.len() > 21 ==> line[21] == buf@[s + 21]);
        }
    }
    kind
}

/// Whether `b` is ASCII whitespace.
pub fn is_whitespace(b: u8) -> (w: bool)
    ensures
        w == whitespace(b),
{
    b == 0x20 || b == 0x09 || b == 0x0A || b == 0x0C || b == 0x0D
}

/// Whether the colon of the line `[s, e)` stands `offset` bytes after its
/// start: the byte there is a colon, and it lies within the line and within
/// the buffer. A colon that stands there in a later line does not count.
pub fn len_match(buf: &[u8], s: usize, e: usize, offset: usize) -> (found: bool)
    ensures
        found == (s + offset < e && s + offset < buf@.len() && buf@[s + offset] == COLON),
{
    if s >= e || offset >= e - s {
        return false;
    }
    let at: usize = s + offset;
    at < buf.len() && buf[at] == COLON
}

/// Builds the pair of the header `h` and the value held by the bytes of
/// `buf` from `l` to `r`, both included: their text without the whitespace
/// around it. There is no pair where no value is left.
pub fn build_header_pair(buf: &[u8], l: usize, r: usize, h: HttpHeader) -> (pair: Option<
    HttpHeaderPair,
>)
    ensures
        pair_is(
            pair,
            match field_value(region(buf@, l as int, r as int)) {
                Some(v) => Some((h, v)),
                None => None,
            },
        ),
{
    if l > r || r >= buf.len() {
        return None;
    }
    let ghost raw = buf@.subrange(l as int, r + 1);
    let mut start: usize = l;
    let mut end: usize = r + 1;
    while start < end && is_whitespace(buf[start])
        invariant
            l <= start <= end == r + 1 <= buf@.len(),
            trim_start(raw) == trim_start(buf@.subrange(start as int, end as int)),
        decreases end - start,
    {
        assert(buf@.subrange(start as int, end as int).drop_first() =~= buf@.subrange(
            start + 1,
            end as int,
        ));
        start += 1;
    }
    assert(trim_start(raw) == buf@.subrange(start as int, end as int));
    while start < end && is_whitespace(buf[end - 1])
        invariant
            l <= start <= end <= r + 1 <= buf@.len(),
            trimmed(raw) == trim_end(buf@.subrange(start as int, end as int)),
        decreases end - start,
    {
        assert(buf@.subrange(start as int, end as int).drop_last() =~= buf@.subrange(
            start as int,
            end - 1,
        ));
        end -= 1;
    }
    assert(trimmed(raw) == buf@.subrange(start as int, end as int));
    if start >= end {
        return None;
    }
    match utf8_range(buf, start, end) {
        Some(value) => Some((h, value)),
        None => None,
    }
}

/// Decodes the header line that the bytes `[s, e)` of `buf` hold, `e` being
/// where the line feed stands. The result is the header that the line names,
/// with its trimmed value, or nothing where the name is not a recognised one
/// or the line holds no value.
pub fn decode_header(buf: &[u8], s: usize, e: usize) -> (pair: Option<HttpHeaderPair>)
    requires
        s <= e <= buf@.len(),
    ensures
        pair_is(pair, field_of(buf@.subrange(s as int, e as int))),
{
    let kind = match candidate(buf, s, e) {
        Some(kind) => kind,
        None => {
            return None;
        },
    };
    let name = kind.name();
    let offset: usize = name.len();
    proof {
        lemma_name_plain(kind);
        is_ascii_chars_encode_utf8(name@);
        lemma_names_at(buf@, s as int, e as int, kind);
        lemma_header_recognition(buf@.subrange(s as int, e as int), kind);
    }
    if len_match(buf, s, e, offset) && range_spells(buf, s, s + offset, name) {
        assert(region(buf@, s + offset + 1, e - 1) =~= buf@.subrange(s as int, e as int).skip(
            offset + 1,
        ));
        build_header_pair(buf, s + offset + 1, e - 1, kind)
    } else {
        None
    }
}

} // verus!
