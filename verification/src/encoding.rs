//! Text encodings used on the wire and at rest: percent-encoding, base64 and
//! UTF-8. The encoders themselves are outside code; this module states what
//! they return.

use base64::Engine;
use vstd::prelude::*;
use vstd::string::*;
use vstd::utf8::*;

verus! {

/// Bytes that percent-encoding leaves as they are: ASCII letters, digits and
/// `-`, `.`, `_`, `~`.
pub open spec fn is_unreserved(b: u8) -> bool {
    ||| 0x30 <= b <= 0x39
    ||| 0x41 <= b <= 0x5a
    ||| 0x61 <= b <= 0x7a
    ||| b == 0x2d
    ||| b == 0x2e
    ||| b == 0x5f
    ||| b == 0x7e
}

/// The upper-case hexadecimal digit of a value below 16.
pub open spec fn hex_upper(nibble: u8) -> char {
    if nibble < 10 {
        (0x30 + nibble) as u8 as char
    } else {
        (0x41 + nibble - 10) as u8 as char
    }
}

/// One byte, percent-encoded: itself when unreserved, `%XX` otherwise.
pub open spec fn percent_encoded_byte(b: u8) -> Seq<char> {
    if is_unreserved(b) {
        seq![b as char]
    } else {
        seq!['%', hex_upper(b / 16), hex_upper(b % 16)]
    }
}

/// A byte string, percent-encoded byte by byte.
pub open spec fn percent_encoded(bytes: Seq<u8>) -> Seq<char>
    decreases bytes.len(),
{
    if bytes.len() == 0 {
        Seq::empty()
    } else {
        percent_encoded(bytes.drop_last()) + percent_encoded_byte(bytes.last())
    }
}

/// `urlencoding::encode`: percent-encodes every byte of the text's UTF-8 form
/// except the unreserved ones.
#[verifier::external_body]
pub(crate) fn percent_encode(text: &str) -> (encoded: String)
    ensures
        encoded@ == percent_encoded(encode_utf8(text@)),
{
    urlencoding::encode(text).into_owned()
}

/// The standard, padded base64 text of a byte string.
pub uninterp spec fn base64_encoded(bytes: Seq<u8>) -> Seq<char>;

/// What decoding a text as standard, padded base64 yields: the bytes, or the
/// decoder's description of why the text is not valid.
pub uninterp spec fn base64_decoded(text: Seq<char>) -> Result<Seq<u8>, Seq<char>>;

/// The mathematical content of a decoder's outcome.
pub open spec fn bytes_outcome(outcome: Result<Vec<u8>, String>) -> Result<Seq<u8>, Seq<char>> {
    match outcome {
        Ok(bytes) => Ok(bytes@),
        Err(reason) => Err(reason@),
    }
}

/// The mathematical content of a text decoder's outcome.
pub open spec fn text_outcome(outcome: Result<String, String>) -> Result<Seq<char>, Seq<char>> {
    match outcome {
        Ok(text) => Ok(text@),
        Err(reason) => Err(reason@),
    }
}

/// `Engine::encode` of `base64::engine::general_purpose::STANDARD`. The text
/// it returns decodes back to the same bytes. It cannot overflow its length
/// computation: a slice never holds more than `isize::MAX` bytes.
#[verifier::external_body]
pub(crate) fn base64_encode(bytes: &[u8]) -> (text: String)
    ensures
        text@ == base64_encoded(bytes@),
        base64_decoded(text@) is Ok,
        base64_decoded(text@)->Ok_0 == bytes@,
{
    base64::engine::general_purpose::STANDARD.encode(bytes)
}

/// `Engine::decode` of `base64::engine::general_purpose::STANDARD`; a failure
/// is handed back as the text that the decoder's error displays.
#[verifier::external_body]
pub(crate) fn base64_decode(text: &str) -> (bytes: Result<Vec<u8>, String>)
    ensures
        bytes_outcome(bytes) == base64_decoded(text@),
{
    base64::engine::general_purpose::STANDARD.decode(text).map_err(|e| e.to_string())
}

/// The description that `String::from_utf8` gives of bytes that are not UTF-8.
pub uninterp spec fn utf8_error(bytes: Seq<u8>) -> Seq<char>;

/// What reading bytes as UTF-8 yields: the text they encode, or the
/// description of why they are not valid.
pub open spec fn utf8_decoded(bytes: Seq<u8>) -> Result<Seq<char>, Seq<char>> {
    utf8_outcome(bytes, utf8_error(bytes))
}

/// The outcome of reading bytes as UTF-8, given the description to report
/// when they are not valid.
pub open spec fn utf8_outcome(bytes: Seq<u8>, reason: Seq<char>) -> Result<Seq<char>, Seq<char>> {
    if valid_utf8(bytes) {
        Ok(decode_utf8(bytes))
    } else {
        Err(reason)
    }
}

/// `String::from_utf8`: the text that the bytes encode, when they are valid
/// UTF-8; otherwise the text that its error displays.
#[verifier::external_body]
pub(crate) fn string_from_utf8(bytes: Vec<u8>) -> (text: Result<String, String>)
    ensures
        text_outcome(text) == utf8_outcome(bytes@, utf8_error(bytes@)),
{
    String::from_utf8(bytes).map_err(|e| e.to_string())
}

} // verus!
