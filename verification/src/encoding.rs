//! Percent-encoding of text that goes into a URL's query string.

use vstd::prelude::*;
use vstd::utf8::*;

verus! {

/// The bytes that stand in a URL as they are: ASCII letters and digits, and
/// `-`, `.`, `_`, `~`.
pub open spec fn is_unreserved(byte: u8) -> bool {
    ||| 0x30 <= byte <= 0x39
    ||| 0x41 <= byte <= 0x5A
    ||| 0x61 <= byte <= 0x7A
    ||| byte == 0x2D
    ||| byte == 0x2E
    ||| byte == 0x5F
    ||| byte == 0x7E
}

/// The upper-case hexadecimal digit of a value below 16.
pub open spec fn hex_digit(value: u8) -> char
    recommends
        value < 16,
{
    if value < 10 {
        ((0x30 + value) as u8) as char
    } else {
        ((0x41 + value - 10) as u8) as char
    }
}

/// One byte as it stands in the encoded text: itself where it is unreserved,
/// else `%` and its two hexadecimal digits, the high one first.
pub open spec fn encoded_byte(byte: u8) -> Seq<char> {
    if is_unreserved(byte) {
        seq![byte as char]
    } else {
        seq!['%', hex_digit(byte / 16), hex_digit(byte % 16)]
    }
}

/// The percent-encoding of a sequence of bytes: the encodings of its bytes,
/// one after the other.
pub open spec fn percent_encoded_bytes(bytes: Seq<u8>) -> Seq<char>
    decreases bytes.len(),
{
    if bytes.len() == 0 {
        Seq::empty()
    } else {
        percent_encoded_bytes(bytes.drop_last()) + encoded_byte(bytes.last())
    }
}

/// The percent-encoding of a text: that of its UTF-8 bytes.
pub open spec fn percent_encoded(text: Seq<char>) -> Seq<char> {
    percent_encoded_bytes(encode_utf8(text))
}

/// Whether a character is one of the unreserved ones: an ASCII letter or
/// digit, or `-`, `.`, `_`, `~`.
pub open spec fn is_unreserved_char(c: char) -> bool {
    ||| '0' <= c <= '9'
    ||| 'A' <= c <= 'Z'
    ||| 'a' <= c <= 'z'
    ||| c == '-'
    ||| c == '.'
    ||| c == '_'
    ||| c == '~'
}

/// The characters that encoded text is made of: the unreserved ones and `%`.
pub open spec fn is_encoded_char(c: char) -> bool {
    is_unreserved_char(c) || c == '%'
}

/// Percent-encodes a text for use in a URL.
///
/// Trusted: the body calls `urlencoding::encode`. That function walks the
/// UTF-8 bytes of its argument, copies each ASCII letter, digit, `-`, `.`, `_`
/// and `~`, and writes every other byte as `%` followed by the byte's two
/// upper-case hexadecimal digits. The contract states exactly that, and
/// nothing about it is proved here.
#[verifier::external_body]
pub(crate) fn percent_encode(text: &str) -> (encoded: String)
    ensures
        encoded@ == percent_encoded(text@),
{
    urlencoding::encode(text).into_owned()
}

/// Encoding splits over concatenation: a text's encoding is that of its parts
/// in a row.
pub proof fn lemma_percent_encoded_bytes_concat(first: Seq<u8>, second: Seq<u8>)
    ensures
        percent_encoded_bytes(first + second) == percent_encoded_bytes(first)
            + percent_encoded_bytes(second),
    decreases second.len(),
{
    if second.len() == 0 {
        assert(first + second =~= first);
        assert(percent_encoded_bytes(first) + percent_encoded_bytes(second)
            =~= percent_encoded_bytes(first));
    } else {
        assert((first + second).drop_last() =~= first + second.drop_last());
        assert((first + second).last() == second.last());
        lemma_percent_encoded_bytes_concat(first, second.drop_last());
        assert(percent_encoded_bytes(first + second) =~= percent_encoded_bytes(first)
            + percent_encoded_bytes(second));
    }
}

/// Encoded text holds unreserved characters and `%` only: no reserved
/// character of the input, and no byte outside ASCII, is left in it.
pub proof fn lemma_percent_encoded_is_url_safe(bytes: Seq<u8>)
    ensures
        forall|i: int|
            0 <= i < percent_encoded_bytes(bytes).len() ==> is_encoded_char(
                #[trigger] percent_encoded_bytes(bytes)[i],
            ),
    decreases bytes.len(),
{
    if bytes.len() > 0 {
        lemma_percent_encoded_bytes_concat(bytes.drop_last(), seq![bytes.last()]);
        lemma_percent_encoded_is_url_safe(bytes.drop_last());
        lemma_encoded_byte_is_url_safe(bytes.last());
    }
}

/// The encoding of one byte is one unreserved character, or `%` and two
/// hexadecimal digits.
pub proof fn lemma_encoded_byte_is_url_safe(byte: u8)
    ensures
        is_unreserved(byte) ==> encoded_byte(byte).len() == 1,
        !is_unreserved(byte) ==> encoded_byte(byte).len() == 3,
        forall|i: int|
            0 <= i < encoded_byte(byte).len() ==> is_encoded_char(#[trigger] encoded_byte(byte)[i]),
{
}

/// A text of unreserved characters is its own encoding.
pub proof fn lemma_unreserved_text_is_unchanged(text: Seq<char>)
    requires
        forall|i: int| 0 <= i < text.len() ==> is_unreserved_char(#[trigger] text[i]),
    ensures
        percent_encoded(text) == text,
{
    assert(is_ascii_chars(text));
    is_ascii_chars_encode_utf8(text);
    lemma_unreserved_bytes_are_unchanged(encode_utf8(text), text);
}

proof fn lemma_unreserved_bytes_are_unchanged(bytes: Seq<u8>, text: Seq<char>)
    requires
        bytes.len() == text.len(),
        forall|i: int|
            0 <= i < text.len() ==> is_unreserved_char(#[trigger] text[i]) && text[i] as u8
                == bytes[i],
    ensures
        percent_encoded_bytes(bytes) == text,
    decreases bytes.len(),
{
    if bytes.len() == 0 {
        assert(percent_encoded_bytes(bytes) =~= text);
    } else {
        lemma_unreserved_bytes_are_unchanged(bytes.drop_last(), text.drop_last());
        let c = text.last();
        assert(is_unreserved_char(c) && c as u8 == bytes.last());
        assert((c as u8) as char == c);
        assert(percent_encoded_bytes(bytes) =~= text);
    }
}

} // verus!
