//! The wire contract with the remote store.
//!
//! Content travels as raw bytes beside a type tag; versions travel as
//! decimal numbers in a header. Nothing here performs a request: these
//! functions say what a request holds and what a response means.

use crate::clipboard::{ClipboardContent, ContentView};
use crate::image::{is_image_result, is_picture, png_to_image, ImageError};
use vstd::prelude::*;
use vstd::slice::slice_to_vec;
use vstd::string::StringExecFns;
use vstd::utf8::{decode_utf8, encode_utf8, valid_utf8};

verus! {

/// The text that `String::from_utf8_lossy` makes of bytes that are not UTF-8.
pub uninterp spec fn repaired_text(data: Seq<u8>) -> Seq<char>;

/// The text a payload stands for: its UTF-8 reading, and for bytes that are
/// not UTF-8 the reading in which every invalid sequence is replaced.
pub open spec fn text_of_bytes(data: Seq<u8>) -> Seq<char> {
    if valid_utf8(data) {
        decode_utf8(data)
    } else {
        repaired_text(data)
    }
}

/// Calls `String::from_utf8_lossy` and takes the result as an owned string.
///
/// Trusted: valid UTF-8 is read as it is; of other bytes, only that the
/// result is a function of the bytes.
#[verifier::external_body]
pub(crate) fn text_from_bytes(data: &[u8]) -> (text: String)
    ensures
        valid_utf8(data@) ==> text@ == decode_utf8(data@),
        !valid_utf8(data@) ==> text@ == repaired_text(data@),
{
    String::from_utf8_lossy(data).into_owned()
}

/// Whether two byte strings are the same.
pub fn bytes_equal(a: &[u8], b: &[u8]) -> (same: bool)
    ensures
        same == (a@ == b@),
{
    if a.len() != b.len() {
        return false;
    }
    let mut i: usize = 0;
    while i < a.len()
        invariant
            a@.len() == b@.len(),
            i <= a@.len(),
            forall|k: int| 0 <= k < i ==> a@[k] == b@[k],
        decreases a@.len() - i,
    {
        if a[i] != b[i] {
            return false;
        }
        i += 1;
    }
    assert(a@ =~= b@);
    true
}

/// Whether two strings are the same text.
pub fn text_equal(a: &str, b: &str) -> (same: bool)
    ensures
        same == (a@ == b@),
{
    proof {
        vstd::utf8::encode_utf8_decode_utf8(a@);
        vstd::utf8::encode_utf8_decode_utf8(b@);
    }
    bytes_equal(a.as_bytes(), b.as_bytes())
}

/// The tag under which a content value travels.
pub open spec fn tag_of(content: ContentView) -> Seq<char> {
    match content {
        ContentView::Text(_) => "text"@,
        ContentView::Image(_) => "screenshot"@,
    }
}

/// The bytes as which a content value travels.
pub open spec fn payload_of(content: ContentView) -> Seq<u8> {
    match content {
        ContentView::Text(text) => encode_utf8(text),
        ContentView::Image(data) => data,
    }
}

/// The two type tags are different texts.
pub proof fn lemma_tags_differ()
    ensures
        "text"@ != "screenshot"@,
{
    reveal_strlit("text");
    reveal_strlit("screenshot");
    assert("text"@.len() != "screenshot"@.len());
}

/// Whether this version knows the type tag.
pub open spec fn is_known_tag(tag: Seq<char>) -> bool {
    tag == "text"@ || tag == "screenshot"@
}

/// The content that a payload with the given tag stands for; `None` for a
/// tag this version does not know and for a payload that is malformed.
///
/// Any bytes are text. Only a PNG file that holds a picture is a screenshot.
pub open spec fn content_of(data: Seq<u8>, tag: Seq<char>) -> Option<ContentView> {
    if tag == "text"@ {
        Some(ContentView::Text(text_of_bytes(data)))
    } else if tag == "screenshot"@ && is_picture(data) {
        Some(ContentView::Image(data))
    } else {
        None
    }
}

/// Why a payload was not turned into content.
#[derive(Debug, Clone, PartialEq, Eq)]
pub enum DecodeError {
    /// The tag names a kind of content this version does not know. The caller
    /// ignores the payload.
    UnsupportedType,
    /// The payload is not what its tag says. The caller skips the payload.
    Malformed(ImageError),
}

/// What [`decode`] answers for a payload and its tag.
pub open spec fn is_decode_result(
    data: Seq<u8>,
    tag: Seq<char>,
    r: Result<ClipboardContent, DecodeError>,
) -> bool {
    match r {
        Ok(content) => content_of(data, tag) == Some(content@),
        Err(DecodeError::UnsupportedType) => !is_known_tag(tag),
        Err(DecodeError::Malformed(e)) => tag == "screenshot"@ && is_image_result(data, Err(e)),
    }
}

/// Encodes content for transport: its payload and its type tag.
pub fn encode(content: &ClipboardContent) -> (r: (Vec<u8>, &'static str))
    ensures
        r.0@ == payload_of(content@),
        r.1@ == tag_of(content@),
{
    match content {
        ClipboardContent::Text(text) => (slice_to_vec(text.as_str().as_bytes()), "text"),
        ClipboardContent::Image(data) => (slice_to_vec(data.as_slice()), "screenshot"),
    }
}

/// Decodes a payload received under the given type tag.
///
/// Text is read as UTF-8, with invalid sequences replaced, and is never
/// malformed. A screenshot is checked to be a PNG file that holds a picture,
/// and kept as the file it came as.
pub fn decode(data: &[u8], tag: &str) -> (r: Result<ClipboardContent, DecodeError>)
    ensures
        is_decode_result(data@, tag@, r),
{
    if text_equal(tag, "text") {
        Ok(ClipboardContent::Text(text_from_bytes(data)))
    } else if text_equal(tag, "screenshot") {
        proof {
            lemma_tags_differ();
        }
        match png_to_image(data) {
            Ok(_) => Ok(ClipboardContent::Image(slice_to_vec(data))),
            Err(e) => Err(DecodeError::Malformed(e)),
        }
    } else {
        Err(DecodeError::UnsupportedType)
    }
}

/// Round trip: decoding what was encoded gives the content back, for text of
/// any length, the empty text too, and for every picture that is one.
pub proof fn lemma_decode_encode(content: ContentView)
    requires
        content matches ContentView::Image(data) ==> is_picture(data),
    ensures
        content_of(payload_of(content), tag_of(content)) == Some(content),
{
    match content {
        ContentView::Text(text) => {
            vstd::utf8::encode_utf8_valid_utf8(text);
            vstd::utf8::encode_utf8_decode_utf8(text);
        },
        ContentView::Image(_) => {
            lemma_tags_differ();
        },
    }
}

/// Whether a byte is an ASCII decimal digit.
pub open spec fn is_digit(b: u8) -> bool {
    0x30 <= b <= 0x39
}

/// Whether every byte is an ASCII decimal digit.
pub open spec fn all_digits(s: Seq<u8>) -> bool {
    forall|i: int| 0 <= i < s.len() ==> is_digit(#[trigger] s[i])
}

/// The number that a string of decimal digits denotes, most significant first.
pub open spec fn digits_value(s: Seq<u8>) -> nat
    decreases s.len(),
{
    if s.len() == 0 {
        0
    } else {
        digits_value(s.drop_last()) * 10 + if is_digit(s.last()) {
            (s.last() - 0x30) as nat
        } else {
            0
        }
    }
}

/// The digits of an index header: what follows one leading `+`, if there is
/// one and it is not alone.
pub open spec fn index_digits(text: Seq<u8>) -> Seq<u8> {
    if text.len() > 1 && text[0] == 0x2b {
        text.drop_first()
    } else {
        text
    }
}

/// The version that an index header denotes: one or more decimal digits,
/// after an optional `+`, whose value fits 64 bits. Anything else (an empty
/// value, a sign alone, a space, a minus) denotes none.
pub open spec fn index_of(text: Seq<u8>) -> Option<u64> {
    let digits = index_digits(text);
    if digits.len() > 0 && all_digits(digits) && digits_value(digits) <= u64::MAX {
        Some(digits_value(digits) as u64)
    } else {
        None
    }
}

/// The decimal digits of a number, without sign or leading zero.
pub open spec fn decimal(n: nat) -> Seq<u8>
    decreases n,
{
    if n < 10 {
        seq![(0x30 + n) as u8]
    } else {
        decimal(n / 10).push((0x30 + n % 10) as u8)
    }
}

/// The decimal digits of a number as text.
pub open spec fn decimal_text(n: nat) -> Seq<char> {
    decode_utf8(decimal(n))
}

/// The value of a prefix of a digit string is at most the value of the whole.
proof fn lemma_value_grows(s: Seq<u8>, k: int)
    requires
        0 <= k <= s.len(),
    ensures
        digits_value(s.subrange(0, k)) <= digits_value(s),
    decreases s.len(),
{
    if k == s.len() {
        assert(s.subrange(0, k) =~= s);
    } else {
        lemma_value_grows(s.drop_last(), k);
        assert(s.drop_last().subrange(0, k) =~= s.subrange(0, k));
    }
}

/// Reads the version out of an index header value.
pub fn parse_index(text: &str) -> (r: Option<u64>)
    ensures
        r == index_of(encode_utf8(text@)),
{
    let bytes = text.as_bytes();
    let start: usize = if bytes.len() > 1 && bytes[0] == 0x2b {
        1
    } else {
        0
    };
    let ghost digits = index_digits(bytes@);
    assert(digits =~= bytes@.subrange(start as int, bytes@.len() as int));
    if start == bytes.len() {
        return None;
    }
    let mut value: u64 = 0;
    let mut i: usize = start;
    assert(digits.subrange(0, 0) =~= Seq::<u8>::empty());
    while i < bytes.len()
        invariant
            start <= i <= bytes@.len(),
            bytes@ == encode_utf8(text@),
            digits == index_digits(bytes@),
            digits == bytes@.subrange(start as int, bytes@.len() as int),
            all_digits(digits.subrange(0, i - start)),
            value == digits_value(digits.subrange(0, i - start)),
        decreases bytes@.len() - i,
    {
        let b = bytes[i];
        let ghost before = digits.subrange(0, i - start);
        let ghost upto = digits.subrange(0, i - start + 1);
        proof {
            assert(upto.drop_last() =~= before);
            assert(upto.last() == b);
            assert(digits[i - start] == b);
            lemma_value_grows(digits, i - start + 1);
        }
        if b < 0x30 || b > 0x39 {
            return None;
        }
        let grown = match value.checked_mul(10) {
            Some(tens) => tens.checked_add((b - 0x30) as u64),
            None => None,
        };
        match grown {
            Some(v) => {
                value = v;
            },
            None => {
                return None;
            },
        }
        i += 1;
    }
    assert(digits.subrange(0, i - start) =~= digits);
    Some(value)
}

/// Appends the decimal digits of `n`.
fn push_decimal(n: u64, out: &mut Vec<u8>)
    ensures
        final(out)@ == old(out)@ + decimal(n as nat),
    decreases n,
{
    if n >= 10 {
        push_decimal(n / 10, out);
    }
    out.push(0x30 + (n % 10) as u8);
    assert(final(out)@ =~= old(out)@ + decimal(n as nat));
}

/// A decimal numeral is made of digits, one at least, and denotes its number.
pub proof fn lemma_decimal_digits(n: nat)
    ensures
        decimal(n).len() > 0,
        all_digits(decimal(n)),
        digits_value(decimal(n)) == n,
    decreases n,
{
    let digits = decimal(n);
    if n < 10 {
        assert(digits.drop_last() =~= Seq::<u8>::empty());
        assert(digits.last() == (0x30 + n) as u8);
        assert(digits_value(digits.drop_last()) == 0);
    } else {
        lemma_decimal_digits(n / 10);
        assert(digits.drop_last() =~= decimal(n / 10));
        assert(digits.last() == (0x30 + n % 10) as u8);
        assert(digits_value(digits) == digits_value(digits.drop_last()) * 10 + n % 10);
    }
}

/// A string of digits is valid UTF-8, and read as text it encodes to itself.
proof fn lemma_digits_are_text(s: Seq<u8>)
    requires
        all_digits(s),
    ensures
        valid_utf8(s),
        encode_utf8(decode_utf8(s)) == s,
{
    let chars = Seq::new(s.len(), |i: int| s[i] as char);
    assert(vstd::utf8::is_ascii_chars(chars)) by {
        assert forall|i: int| 0 <= i < chars.len() implies '\0' <= #[trigger] chars[i]
            <= '\u{7f}' by {
            assert(is_digit(s[i]));
        }
    }
    vstd::utf8::is_ascii_chars_encode_utf8(chars);
    assert(encode_utf8(chars) =~= s) by {
        assert forall|i: int| 0 <= i < s.len() implies encode_utf8(chars)[i] == s[i] by {
            assert(is_digit(s[i]));
            assert(chars[i] as u8 == encode_utf8(chars)[i]);
        }
    }
    vstd::utf8::encode_utf8_valid_utf8(chars);
    vstd::utf8::decode_utf8_encode_utf8(s);
}

/// Writes a version as an index header value: its decimal digits.
pub fn format_index(index: u64) -> (text: String)
    ensures
        text@ == decimal_text(index as nat),
        encode_utf8(text@) == decimal(index as nat),
{
    let mut digits: Vec<u8> = Vec::new();
    push_decimal(index, &mut digits);
    proof {
        assert(digits@ =~= decimal(index as nat));
        lemma_decimal_digits(index as nat);
        lemma_digits_are_text(digits@);
    }
    text_from_bytes(digits.as_slice())
}

/// An index header that was written from a version reads back as that version.
pub proof fn lemma_parse_format(index: u64)
    ensures
        index_of(decimal(index as nat)) == Some(index),
{
    lemma_decimal_digits(index as nat);
    let text = decimal(index as nat);
    assert(is_digit(text[0]));
    assert(index_digits(text) == text);
}

/// Name of the header that carries a version, in requests and responses.
pub const INDEX_HEADER: &'static str = "X-Index";

/// Name of the header that carries the type tag of a payload.
pub const TYPE_HEADER: &'static str = "X-Type";

/// Media type under which a payload is posted.
pub const PAYLOAD_MEDIA_TYPE: &'static str = "application/octet-stream";

/// Status with which the store says that the cursor is current.
pub const NOT_MODIFIED: u16 = 304;

/// Whether a status reports success (the 2xx class).
pub open spec fn is_success(status: u16) -> bool {
    200 <= status < 300
}

/// Whether a status reports success (the 2xx class).
pub fn status_is_success(status: u16) -> (ok: bool)
    ensures
        ok == is_success(status),
{
    200 <= status && status < 300
}

/// Address of the clipboard resource below the store's base address.
pub fn endpoint(base: &str) -> (url: String)
    ensures
        url@ == base@ + "/api/v1/clipboard"@,
{
    String::from_str(base).concat("/api/v1/clipboard")
}

/// A request for the latest content: `GET url` with the index header.
#[derive(Debug, Clone, PartialEq, Eq)]
pub struct PullRequest {
    pub url: String,
    /// Value of the index header: the version the client last saw.
    pub index: String,
}

/// A request that submits content: `POST url` with the body, the type header
/// and [`PAYLOAD_MEDIA_TYPE`] as content type.
#[derive(Debug, Clone, PartialEq, Eq)]
pub struct PushRequest {
    pub url: String,
    /// Value of the type header.
    pub content_type: &'static str,
    pub body: Vec<u8>,
}

/// What of a response is known before its body is read: the status and the
/// two headers, each present only if it was sent as visible ASCII.
#[derive(Debug, Clone, PartialEq, Eq)]
pub struct ResponseHead {
    pub status: u16,
    pub index: Option<String>,
    pub content_type: Option<String>,
}

} // verus!
