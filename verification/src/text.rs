//! Text on the wire: bytes that spell a token, and bytes that are UTF-8.

use vstd::prelude::*;
use vstd::string::*;
use vstd::utf8::*;
use vstd::slice::*;

verus! {

/// Whether `bytes` are the characters of `text`, one byte for each.
pub open spec fn spells(bytes: Seq<u8>, text: Seq<char>) -> bool {
    &&& bytes.len() == text.len()
    &&& forall|i: int| 0 <= i < text.len() ==> #[trigger] bytes[i] as char == text[i]
}

/// Whether `bytes` begin with the bytes that spell `text`.
pub open spec fn begins_with(bytes: Seq<u8>, text: Seq<char>) -> bool {
    text.len() <= bytes.len() && spells(bytes.take(text.len() as int), text)
}

/// To begin with a text is to hold its characters at its indices.
pub proof fn lemma_begins_with(bytes: Seq<u8>, text: Seq<char>)
    ensures
        begins_with(bytes, text) <==> text.len() <= bytes.len() && forall|i: int|
            0 <= i < text.len() ==> #[trigger] bytes[i] as char == text[i],
{
    let head = bytes.take(text.len() as int);
    if text.len() <= bytes.len() {
        if spells(head, text) {
            assert forall|i: int| 0 <= i < text.len() implies #[trigger] bytes[i] as char
                == text[i] by {
                assert(head[i] == bytes[i]);
            }
        }
        if forall|i: int| 0 <= i < text.len() ==> #[trigger] bytes[i] as char == text[i] {
            assert forall|i: int| 0 <= i < text.len() implies #[trigger] head[i] as char
                == text[i] by {
                assert(head[i] == bytes[i]);
            }
        }
    }
}

/// The text that `bytes` encode, where they are valid UTF-8.
pub open spec fn text_of(bytes: Seq<u8>) -> Option<Seq<char>> {
    if valid_utf8(bytes) {
        Some(decode_utf8(bytes))
    } else {
        None
    }
}

/// For ASCII text, the bytes that spell it are the bytes that encode it.
pub proof fn lemma_spells_ascii(bytes: Seq<u8>, text: Seq<char>)
    requires
        is_ascii_chars(text),
    ensures
        spells(bytes, text) <==> text_of(bytes) == Some(text),
{
    broadcast use encode_utf8_valid_utf8, encode_utf8_decode_utf8, decode_utf8_encode_utf8;

    is_ascii_chars_encode_utf8(text);
    let encoded = encode_utf8(text);
    assert(spells(encoded, text)) by {
        assert forall|i: int| 0 <= i < text.len() implies #[trigger] encoded[i] as char
            == text[i] by {
            assert('\0' <= text[i] <= '\u{7f}');
        }
    }
    if spells(bytes, text) {
        assert(bytes =~= encoded) by {
            assert forall|i: int| 0 <= i < bytes.len() implies bytes[i] == encoded[i] by {
                assert(bytes[i] as char == text[i] && encoded[i] as char == text[i]);
            }
        }
    }
    if text_of(bytes) == Some(text) {
        assert(encode_utf8(decode_utf8(bytes)) == bytes);
    }
}

/// The error of `String::from_utf8`. Nothing is read from it.
#[verifier::external_type_specification]
#[verifier::external_body]
pub struct ExFromUtf8Error(std::string::FromUtf8Error);

/// `String::from_utf8` of std: the call succeeds exactly on valid UTF-8, and
/// the string it gives is the text that the bytes encode.
pub assume_specification[ String::from_utf8 ](vec: Vec<u8>) -> (text: Result<
    String,
    std::string::FromUtf8Error,
>)
    ensures
        text is Ok <==> valid_utf8(vec@),
        text matches Ok(t) ==> t@ == decode_utf8(vec@),
;

/// The bytes `[from, to)` of `buf` as a string, where they are valid UTF-8.
pub fn utf8_range(buf: &[u8], from: usize, to: usize) -> (text: Option<String>)
    requires
        from <= to <= buf@.len(),
    ensures
        match text_of(buf@.subrange(from as int, to as int)) {
            Some(t) => text is Some && text.unwrap()@ == t,
            None => text is None,
        },
{
    let copy = slice_to_vec(slice_subrange(buf, from, to));
    match String::from_utf8(copy) {
        Ok(text) => Some(text),
        Err(_) => None,
    }
}

/// Whether the bytes `[from, to)` of `buf` spell the ASCII text `text`.
pub fn range_spells(buf: &[u8], from: usize, to: usize, text: &str) -> (same: bool)
    requires
        from <= to <= buf@.len(),
        is_ascii_chars(text@),
    ensures
        same == spells(buf@.subrange(from as int, to as int), text@),
{
    broadcast use is_ascii_spec_bytes;

    let want = text.as_bytes();
    let ghost range = buf@.subrange(from as int, to as int);
    assert(is_ascii(text) && want@ == text.spec_bytes());
    assert forall|j: int| 0 <= j < text@.len() implies #[trigger] want@[j] as char == text@[j] by {
        assert('\0' <= text@[j] <= '\u{7f}');
    }
    if to - from != want.len() {
        return false;
    }
    let mut i: usize = 0;
    while i < want.len()
        invariant
            from <= to <= buf@.len(),
            to - from == want@.len(),
            want@.len() == text@.len(),
            range == buf@.subrange(from as int, to as int),
            forall|j: int| 0 <= j < text@.len() ==> #[trigger] want@[j] as char == text@[j],
            0 <= i <= want@.len(),
            forall|j: int| 0 <= j < i ==> #[trigger] range[j] as char == text@[j],
        decreases want@.len() - i,
    {
        if buf[from + i] != want[i] {
            assert(range[i as int] as char != text@[i as int]);
            return false;
        }
        i += 1;
    }
    true
}

/// Whether two strings hold the same text.
pub fn same_text(a: &str, b: &str) -> (same: bool)
    ensures
        same == (a@ == b@),
{
    broadcast use encode_utf8_decode_utf8;

    let x = a.as_bytes();
    let y = b.as_bytes();
    if x.len() != y.len() {
        return false;
    }
    let mut i: usize = 0;
    while i < x.len()
        invariant
            x@ == encode_utf8(a@),
            y@ == encode_utf8(b@),
            x@.len() == y@.len(),
            0 <= i <= x@.len(),
            forall|j: int| 0 <= j < i ==> x@[j] == y@[j],
        decreases x@.len() - i,
    {
        if x[i] != y[i] {
            return false;
        }
        i += 1;
    }
    assert(x@ =~= y@);
    assert(decode_utf8(encode_utf8(a@)) == a@);
    assert(decode_utf8(encode_utf8(b@)) == b@);
    true
}

} // verus!
