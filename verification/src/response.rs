//! The raw response of an origin, and its decoding: the status line, then the
//! header lines, then the declared length of the body.

use vstd::prelude::*;
use vstd::string::*;
use vstd::utf8::*;
use vstd::slice::*;
use vstd::std_specs::convert::FromSpecImpl;
use crate::decoders::{decode_header, field_of, lemma_header_recognition, names, trimmed};
use crate::error::HttpError;
use crate::partials::{fields_of, HttpHeader, HttpHeaderPair, HttpStatusCode, HttpVersion};
use crate::scan::{find_byte, lemma_next_index, next_index, LF, SP};
use crate::text::{lemma_spells_ascii, spells};

verus! {

/// The bytes of a response as an origin sent them.
#[derive(Debug)]
pub struct RawHttpResponse {
    bytes: Vec<u8>,
}

impl View for RawHttpResponse {
    type V = Seq<u8>;

    closed spec fn view(&self) -> Seq<u8> {
        self.bytes@
    }
}

/// A decoded response. `content_length` is what the headers declare, for
/// those who read the body; the decoder does not hold the body to it.
#[derive(Debug)]
pub struct DecodedHttpResponse {
    pub version: HttpVersion,
    pub status: HttpStatusCode,
    pub headers: Vec<HttpHeaderPair>,
    pub content_length: Option<u64>,
}

/// A decoded response as plain values.
pub struct ResponseView {
    pub version: HttpVersion,
    pub status: HttpStatusCode,
    pub headers: Seq<(HttpHeader, Seq<char>)>,
    pub content_length: Option<u64>,
}

impl View for DecodedHttpResponse {
    type V = ResponseView;

    open spec fn view(&self) -> ResponseView {
        ResponseView {
            version: self.version,
            status: self.status,
            headers: fields_of(self.headers@),
            content_length: self.content_length,
        }
    }
}

/// Whether every character of `text` is a decimal digit.
pub open spec fn all_digits(text: Seq<char>) -> bool {
    forall|i: int| 0 <= i < text.len() ==> '0' <= #[trigger] text[i] <= '9'
}

/// The number that the digits of `text` write in base ten.
pub open spec fn digits_value(text: Seq<char>) -> nat
    decreases text.len(),
{
    if text.len() == 0 {
        0
    } else {
        (digits_value(text.drop_last()) * 10 + (text.last() as nat - '0' as nat)) as nat
    }
}

/// The length that a `Content-Length` value declares: the number it writes,
/// where it is one or more decimal digits and the number fits in 64 bits.
pub open spec fn length_value(text: Seq<char>) -> Option<u64> {
    if text.len() > 0 && all_digits(text) && digits_value(text) <= u64::MAX {
        Some(digits_value(text) as u64)
    } else {
        None
    }
}

/// The body length that a sequence of headers declares: that of the last
/// `Content-Length` header whose value is a length. A later one overrides an
/// earlier one.
pub open spec fn declared_length(headers: Seq<(HttpHeader, Seq<char>)>) -> Option<u64>
    decreases headers.len(),
{
    if headers.len() == 0 {
        None
    } else if headers.last().0 == HttpHeader::ContentLength && length_value(headers.last().1)
        is Some {
        length_value(headers.last().1)
    } else {
        declared_length(headers.drop_last())
    }
}

/// The line of `buf` that begins at `at`, without its line feed.
pub open spec fn line_at(buf: Seq<u8>, at: int) -> Seq<u8> {
    buf.subrange(at, next_index(buf, at, LF))
}

/// Where the header lines of a response begin: after the line feed that ends
/// the status line.
pub open spec fn first_header_at(bytes: Seq<u8>) -> int {
    next_index(bytes, next_index(bytes, 0, SP) + 4, LF) + 1
}

/// The headers that the lines of `buf` from `cursor` on decode to, in their
/// order. A line ends at its line feed; what follows the last line feed is no
/// line.
pub open spec fn header_fields(buf: Seq<u8>, cursor: int) -> Seq<(HttpHeader, Seq<char>)>
    decreases buf.len() - cursor,
{
    let end = next_index(buf, cursor, LF);
    if cursor < 0 || end >= buf.len() {
        Seq::empty()
    } else {
        proof {
            lemma_next_index(buf, cursor, LF);
        }
        match field_of(line_at(buf, cursor)) {
            Some(field) => seq![field] + header_fields(buf, end + 1),
            None => header_fields(buf, end + 1),
        }
    }
}

/// What the bytes of a response decode to.
///
/// The version is the field before the first space and the status the three
/// bytes after it. A response that ends with its status line, with no line
/// feed, has no headers and a length of zero. Otherwise the header lines
/// follow the first line feed.
pub open spec fn response_of(bytes: Seq<u8>) -> Result<ResponseView, HttpError> {
    let sp = next_index(bytes, 0, SP);
    if sp >= bytes.len() {
        Err(HttpError::BadFormat)
    } else if HttpVersion::read(bytes.subrange(0, sp)) is None {
        Err(HttpError::UnknownVersion)
    } else if sp + 4 > bytes.len() {
        Err(HttpError::BadFormat)
    } else {
        let version = HttpVersion::read(bytes.subrange(0, sp)).unwrap();
        let status = HttpStatusCode::read(bytes.subrange(sp + 1, sp + 4));
        if first_header_at(bytes) > bytes.len() {
            Ok(
                ResponseView {
                    version,
                    status,
                    headers: Seq::empty(),
                    content_length: Some(0u64),
                },
            )
        } else {
            let headers = header_fields(bytes, first_header_at(bytes));
            Ok(ResponseView { version, status, headers, content_length: declared_length(headers) })
        }
    }
}

impl From<Vec<u8>> for RawHttpResponse {
    /// Wraps the bytes that an origin sent.
    fn from(value: Vec<u8>) -> (raw: RawHttpResponse)
        ensures
            raw@ == value@,
    {
        RawHttpResponse { bytes: value }
    }
}

impl FromSpecImpl<Vec<u8>> for RawHttpResponse {
    open spec fn obeys_from_spec() -> bool {
        true
    }

    closed spec fn from_spec(value: Vec<u8>) -> RawHttpResponse {
        RawHttpResponse { bytes: value }
    }
}

impl Default for RawHttpResponse {
    /// The empty response.
    fn default() -> (raw: RawHttpResponse)
        ensures
            raw@ == Seq::<u8>::empty(),
    {
        RawHttpResponse { bytes: Vec::new() }
    }
}

impl RawHttpResponse {
    /// The bytes of the response.
    pub fn bytes(&self) -> (bytes: &[u8])
        ensures
            bytes@ == self@,
    {
        self.bytes.as_slice()
    }

    /// How many bytes the response holds.
    pub fn size(&self) -> (size: usize)
        ensures
            size == self@.len(),
    {
        self.bytes.len()
    }

    /// Decodes the response.
    pub fn decode(self) -> (decoded: Result<DecodedHttpResponse, HttpError>)
        ensures
            match response_of(self@) {
                Ok(view) => decoded is Ok && decoded.unwrap()@ == view,
                Err(e) => decoded == Err::<DecodedHttpResponse, HttpError>(e),
            },
    {
        let bytes = self.bytes.as_slice();
        let sp: usize = match find_byte(bytes, 0, SP) {
            Some(sp) => sp,
            None => {
                return Err(HttpError::BadFormat);
            },
        };
        let version = match HttpVersion::try_from(slice_subrange(bytes, 0, sp)) {
            Ok(v) => v,
            Err(_) => {
                return Err(HttpError::UnknownVersion);
            },
        };
        if bytes.len() - sp < 4 {
            return Err(HttpError::BadFormat);
        }
        let status = HttpStatusCode::from(slice_subrange(bytes, sp + 1, sp + 4));
        let first_lf: usize = match find_byte(bytes, sp + 4, LF) {
            Some(lf) => lf,
            None => {
                let decoded = DecodedHttpResponse {
                    version,
                    status,
                    headers: Vec::new(),
                    content_length: Some(0),
                };
                assert(decoded@.headers =~= Seq::empty());
                return Ok(decoded);
            },
        };
        let headers = decode_headers(bytes, first_lf + 1);
        let content_length = content_length_of(&headers);
        Ok(DecodedHttpResponse { version, status, headers, content_length })
    }
}

/// Decodes the header lines of `buf` from `start` on.
pub fn decode_headers(buf: &[u8], start: usize) -> (headers: Vec<HttpHeaderPair>)
    ensures
        fields_of(headers@) == header_fields(buf@, start as int),
{
    let mut headers: Vec<HttpHeaderPair> = Vec::new();
    let mut cursor: usize = start;
    loop
        invariant
            start <= cursor,
            header_fields(buf@, start as int) == fields_of(headers@) + header_fields(
                buf@,
                cursor as int,
            ),
        ensures
            fields_of(headers@) == header_fields(buf@, start as int),
        decreases buf@.len() - cursor,
    {
        let end: usize = match find_byte(buf, cursor, LF) {
            Some(end) => end,
            None => {
                assert(fields_of(headers@) + Seq::empty() =~= fields_of(headers@));
                break ;
            },
        };
        let ghost before = fields_of(headers@);
        let ghost rest = header_fields(buf@, end + 1);
        match decode_header(buf, cursor, end) {
            Some(pair) => {
                let ghost field = (pair.0, pair.1@);
                headers.push(pair);
                assert(fields_of(headers@) =~= before + seq![field]);
                assert((before + seq![field]) + rest =~= before + (seq![field] + rest));
            },
            None => {},
        }
        assert(end < buf.len());
        cursor = end + 1;
    }
    headers
}

/// Reads the length that a `Content-Length` value declares.
pub fn parse_length(value: &str) -> (length: Option<u64>)
    ensures
        length == length_value(value@),
{
    broadcast use is_ascii_spec_bytes;

    if !value.is_ascii() {
        assert(!all_digits(value@)) by {
            let i = choose|i: int|
                0 <= i < value@.len() && !('\0' <= #[trigger] value@[i] <= '\u{7f}');
            assert(!('0' <= value@[i] <= '9'));
        }
        return None;
    }
    let bytes = value.as_bytes();
    assert(is_ascii(value) && bytes@ == value.spec_bytes());
    assert forall|j: int| 0 <= j < value@.len() implies #[trigger] bytes@[j] as char
        == value@[j] by {
        assert('\0' <= value@[j] <= '\u{7f}');
    }
    if bytes.len() == 0 || !digits_only(bytes) {
        assert(value@.len() == 0 || !all_digits(value@)) by {
            if all_digits(value@) {
                assert forall|j: int| 0 <= j < bytes@.len() implies '0' <= #[trigger] bytes@[j] as char
                    <= '9' by {
                    assert('0' <= value@[j] <= '9');
                }
            }
        }
        return None;
    }
    assert(all_digits(value@)) by {
        assert forall|j: int| 0 <= j < value@.len() implies '0' <= #[trigger] value@[j] <= '9' by {
            assert('0' <= bytes@[j] as char <= '9');
        }
    }
    let mut total: u64 = 0;
    let mut i: usize = 0;
    while i < bytes.len()
        invariant
            0 <= i <= bytes@.len() == value@.len(),
            forall|j: int| 0 <= j < value@.len() ==> #[trigger] bytes@[j] as char == value@[j],
            all_digits(value@),
            total == digits_value(value@.take(i as int)),
        decreases bytes@.len() - i,
    {
        let ghost longer = value@.take(i + 1);
        assert(longer.drop_last() =~= value@.take(i as int));
        assert(longer.last() == value@[i as int] && bytes@[i as int] as char == value@[i as int]);
        let digit: u64 = (bytes[i] - 0x30) as u64;
        if total > (u64::MAX - digit) / 10 {
            proof {
                lemma_digits_grow(value@, i + 1);
            }
            return None;
        }
        total = total * 10 + digit;
        i += 1;
    }
    assert(value@.take(i as int) =~= value@);
    Some(total)
}

/// Whether the bytes are all decimal digits.
fn digits_only(bytes: &[u8]) -> (all: bool)
    ensures
        all == forall|j: int| 0 <= j < bytes@.len() ==> '0' <= #[trigger] bytes@[j] as char <= '9',
{
    let mut i: usize = 0;
    while i < bytes.len()
        invariant
            0 <= i <= bytes@.len(),
            forall|j: int| 0 <= j < i ==> '0' <= #[trigger] bytes@[j] as char <= '9',
        decreases bytes@.len() - i,
    {
        if bytes[i] < 0x30 || bytes[i] > 0x39 {
            assert(!('0' <= bytes@[i as int] as char <= '9'));
            return false;
        }
        i += 1;
    }
    true
}

/// A number written with more digits is no smaller than the one that its
/// first `n` digits write.
proof fn lemma_digits_grow(text: Seq<char>, n: int)
    requires
        0 <= n <= text.len(),
        all_digits(text),
    ensures
        digits_value(text.take(n)) <= digits_value(text),
    decreases text.len() - n,
{
    if n < text.len() {
        let longer = text.take(n + 1);
        assert(longer.drop_last() =~= text.take(n));
        assert(longer.last() == text[n]);
        lemma_digits_grow(text, n + 1);
    } else {
        assert(text.take(n) =~= text);
    }
}

/// A `Content-Length` header whose value is a length decides the declared
/// length, where no such header follows it.
pub proof fn lemma_declared_length(headers: Seq<(HttpHeader, Seq<char>)>, i: int)
    requires
        0 <= i < headers.len(),
        headers[i].0 == HttpHeader::ContentLength,
        length_value(headers[i].1) is Some,
        forall|j: int|
            i < j < headers.len() ==> !(headers[j].0 == HttpHeader::ContentLength && length_value(
                headers[j].1,
            ) is Some),
    ensures
        declared_length(headers) == length_value(headers[i].1),
    decreases headers.len(),
{
    if i < headers.len() - 1 {
        let shorter = headers.drop_last();
        assert(shorter[i] == headers[i]);
        assert forall|j: int| i < j < shorter.len() implies !(shorter[j].0
            == HttpHeader::ContentLength && length_value(shorter[j].1) is Some) by {
            assert(shorter[j] == headers[j]);
        }
        lemma_declared_length(shorter, i);
    }
}

/// A line `Content-Length: N`, with whitespace around the digits of `N` or
/// none, decodes to that header with the digits as its value.
pub proof fn lemma_content_length_line(line: Seq<u8>, digits: Seq<char>)
    requires
        names(HttpHeader::ContentLength, line),
        spells(trimmed(line.skip(HttpHeader::ContentLength.spec_name().len() as int + 1)), digits),
        digits.len() > 0,
        all_digits(digits),
    ensures
        field_of(line) == Some((HttpHeader::ContentLength, digits)),
{
    let value = trimmed(line.skip(HttpHeader::ContentLength.spec_name().len() as int + 1));
    assert(is_ascii_chars(digits)) by {
        assert forall|i: int| 0 <= i < digits.len() implies '\0' <= #[trigger] digits[i]
            <= '\u{7f}' by {
            assert('0' <= digits[i] <= '9');
        }
    }
    lemma_spells_ascii(value, digits);
    lemma_header_recognition(line, HttpHeader::ContentLength);
}

/// Where the headers of a decoded response include a `Content-Length` whose
/// value writes the number `N`, and no later one declares a length, the
/// response's `content_length` is `N`.
pub proof fn lemma_content_length(bytes: Seq<u8>, i: int)
    requires
        response_of(bytes) is Ok,
        0 <= i < response_of(bytes).unwrap().headers.len(),
        response_of(bytes).unwrap().headers[i].0 == HttpHeader::ContentLength,
        length_value(response_of(bytes).unwrap().headers[i].1) is Some,
        forall|j: int|
            i < j < response_of(bytes).unwrap().headers.len() ==> !(response_of(
                bytes,
            ).unwrap().headers[j].0 == HttpHeader::ContentLength && length_value(
                response_of(bytes).unwrap().headers[j].1,
            ) is Some),
    ensures
        response_of(bytes).unwrap().content_length == length_value(
            response_of(bytes).unwrap().headers[i].1,
        ),
        response_of(bytes).unwrap().content_length == Some(
            digits_value(response_of(bytes).unwrap().headers[i].1) as u64,
        ),
{
    lemma_declared_length(response_of(bytes).unwrap().headers, i);
}

/// Whether one of the lines of `buf` that are read from `start` on begins at
/// `at`.
pub open spec fn line_begins(buf: Seq<u8>, start: int, at: int) -> bool
    decreases buf.len() - start,
{
    let end = next_index(buf, start, LF);
    if start < 0 || end >= buf.len() {
        false
    } else if at == start {
        true
    } else {
        proof {
            lemma_next_index(buf, start, LF);
        }
        line_begins(buf, end + 1, at)
    }
}

/// Whether a decoded line is a `Content-Length` whose value is a length.
pub open spec fn declares_length(field: Option<(HttpHeader, Seq<char>)>) -> bool {
    field matches Some((kind, value)) && kind == HttpHeader::ContentLength && length_value(value)
        is Some
}

proof fn lemma_line_begins_later(buf: Seq<u8>, start: int, at: int)
    requires
        line_begins(buf, start, at),
    ensures
        start <= at < buf.len(),
    decreases buf.len() - start,
{
    lemma_next_index(buf, start, LF);
    if at != start {
        lemma_line_begins_later(buf, next_index(buf, start, LF) + 1, at);
    }
}

/// The decoded headers are the header lines that decode, no more and no
/// less: a field is among them exactly where one of the lines decodes to it.
pub proof fn lemma_headers_are_lines(buf: Seq<u8>, start: int, field: (HttpHeader, Seq<char>))
    ensures
        header_fields(buf, start).contains(field) <==> exists|at: int| #[trigger]
            line_begins(buf, start, at) && field_of(line_at(buf, at)) == Some(field),
    decreases buf.len() - start,
{
    let fields = header_fields(buf, start);
    let end = next_index(buf, start, LF);
    if start < 0 || end >= buf.len() {
        assert(!fields.contains(field));
    } else {
        lemma_next_index(buf, start, LF);
        lemma_headers_are_lines(buf, end + 1, field);
        let rest = header_fields(buf, end + 1);
        let first = field_of(line_at(buf, start));
        assert(line_begins(buf, start, start));
        if fields.contains(field) {
            let i = choose|i: int| 0 <= i < fields.len() && fields[i] == field;
            if first is Some && i == 0 {
                assert(first == Some(field));
            } else {
                assert(rest.contains(field)) by {
                    if first is Some {
                        assert(rest[i - 1] == field);
                    } else {
                        assert(rest[i] == field);
                    }
                }
                let at = choose|at: int| #[trigger]
                    line_begins(buf, end + 1, at) && field_of(line_at(buf, at)) == Some(field);
                lemma_line_begins_later(buf, end + 1, at);
                assert(line_begins(buf, start, at));
            }
        }
        if exists|at: int| #[trigger]
            line_begins(buf, start, at) && field_of(line_at(buf, at)) == Some(field) {
            let at = choose|at: int| #[trigger]
                line_begins(buf, start, at) && field_of(line_at(buf, at)) == Some(field);
            if at == start {
                assert(fields[0] == field);
            } else {
                assert(line_begins(buf, end + 1, at));
                let i = choose|i: int| 0 <= i < rest.len() && rest[i] == field;
                if first is Some {
                    assert(fields[i + 1] == field);
                } else {
                    assert(fields[i] == field);
                }
            }
        }
    }
}

proof fn lemma_declared_after(field: (HttpHeader, Seq<char>), rest: Seq<(HttpHeader, Seq<char>)>)
    ensures
        declared_length(seq![field] + rest) == if declared_length(rest) is Some {
            declared_length(rest)
        } else if declares_length(Some(field)) {
            length_value(field.1)
        } else {
            None
        },
    decreases rest.len(),
{
    let all = seq![field] + rest;
    if rest.len() == 0 {
        assert(all.drop_last() =~= Seq::empty());
        assert(all.last() == field);
        assert(declared_length(all.drop_last()) is None);
    } else {
        assert(all.drop_last() =~= seq![field] + rest.drop_last());
        assert(all.last() == rest.last());
        lemma_declared_after(field, rest.drop_last());
    }
}

proof fn lemma_no_length(buf: Seq<u8>, start: int)
    requires
        forall|p: int| #[trigger]
            line_begins(buf, start, p) ==> !declares_length(field_of(line_at(buf, p))),
    ensures
        declared_length(header_fields(buf, start)) is None,
    decreases buf.len() - start,
{
    let end = next_index(buf, start, LF);
    if !(start < 0 || end >= buf.len()) {
        lemma_next_index(buf, start, LF);
        assert(line_begins(buf, start, start));
        assert forall|p: int| #[trigger] line_begins(buf, end + 1, p) implies !declares_length(
            field_of(line_at(buf, p)),
        ) by {
            lemma_line_begins_later(buf, end + 1, p);
            assert(line_begins(buf, start, p));
        }
        lemma_no_length(buf, end + 1);
        match field_of(line_at(buf, start)) {
            Some(field) => {
                lemma_declared_after(field, header_fields(buf, end + 1));
            },
            None => {},
        }
    }
}

proof fn lemma_one_length(buf: Seq<u8>, start: int, at: int)
    requires
        line_begins(buf, start, at),
        declares_length(field_of(line_at(buf, at))),
        forall|p: int| #[trigger]
            line_begins(buf, start, p) && p != at ==> !declares_length(field_of(line_at(buf, p))),
    ensures
        declared_length(header_fields(buf, start)) == length_value(
            field_of(line_at(buf, at)).unwrap().1,
        ),
    decreases buf.len() - start,
{
    let end = next_index(buf, start, LF);
    lemma_next_index(buf, start, LF);
    assert forall|p: int| #[trigger] line_begins(buf, end + 1, p) implies line_begins(
        buf,
        start,
        p,
    ) && p != start by {
        lemma_line_begins_later(buf, end + 1, p);
    }
    if at == start {
        lemma_no_length(buf, end + 1);
        lemma_declared_after(field_of(line_at(buf, at)).unwrap(), header_fields(buf, end + 1));
    } else {
        lemma_one_length(buf, end + 1, at);
        assert(line_begins(buf, start, start));
        match field_of(line_at(buf, start)) {
            Some(field) => {
                lemma_declared_after(field, header_fields(buf, end + 1));
            },
            None => {},
        }
    }
}

/// The same, from the bytes: a response that decodes, and among whose header
/// lines one is `Content-Length: N` for a number `N` that fits in 64 bits,
/// has `N` as its `content_length`, where no other of its lines declares a
/// length.
pub proof fn lemma_content_length_from_bytes(bytes: Seq<u8>, at: int, digits: Seq<char>)
    requires
        response_of(bytes) is Ok,
        line_begins(bytes, first_header_at(bytes), at),
        names(HttpHeader::ContentLength, line_at(bytes, at)),
        spells(
            trimmed(
                line_at(bytes, at).skip(HttpHeader::ContentLength.spec_name().len() as int + 1),
            ),
            digits,
        ),
        digits.len() > 0,
        all_digits(digits),
        digits_value(digits) <= u64::MAX,
        forall|p: int| #[trigger]
            line_begins(bytes, first_header_at(bytes), p) && p != at ==> !declares_length(
                field_of(line_at(bytes, p)),
            ),
    ensures
        response_of(bytes).unwrap().content_length == Some(digits_value(digits) as u64),
{
    lemma_content_length_line(line_at(bytes, at), digits);
    lemma_line_begins_later(bytes, first_header_at(bytes), at);
    lemma_next_index(bytes, 0, SP);
    lemma_one_length(bytes, first_header_at(bytes), at);
}

/// The body length that the decoded headers declare.
pub fn content_length_of(headers: &Vec<HttpHeaderPair>) -> (length: Option<u64>)
    ensures
        length == declared_length(fields_of(headers@)),
{
    let mut i: usize = headers.len();
    let ghost fields = fields_of(headers@);
    assert(fields.take(i as int) =~= fields);
    while i > 0
        invariant
            0 <= i <= headers@.len(),
            fields == fields_of(headers@),
            declared_length(fields) == declared_length(fields.take(i as int)),
        decreases i,
    {
        let ghost upto = fields.take(i as int);
        assert(upto.drop_last() =~= fields.take(i - 1));
        assert(upto.last() == fields[i - 1]);
        i -= 1;
        let pair = &headers[i];
        if pair.0 == HttpHeader::ContentLength {
            let length = parse_length(pair.1.as_str());
            if length.is_some() {
                return length;
            }
        }
    }
    assert(fields.take(0) =~= Seq::empty());
    None
}

} // verus!
