//! Text encodings that a ticket and its key arrive in: UTF-8, hexadecimal
//! and base64url.

use vstd::prelude::*;
use vstd::utf8::valid_utf8;
use vstd::string::StringSliceAdditionalSpecFns;

verus! {

/// The value of a hexadecimal digit, in either case.
pub open spec fn hex_digit_value(c: char) -> Option<int> {
    if '0' <= c && c <= '9' {
        Some(c as int - '0' as int)
    } else if 'a' <= c && c <= 'f' {
        Some(c as int - 'a' as int + 10)
    } else if 'A' <= c && c <= 'F' {
        Some(c as int - 'A' as int + 10)
    } else {
        None
    }
}

/// Text made of an even number of hexadecimal digits.
pub open spec fn is_hex_text(text: Seq<char>) -> bool {
    &&& text.len() % 2 == 0
    &&& forall|i: int| 0 <= i < text.len() ==> hex_digit_value(#[trigger] text[i]) is Some
}

/// The bytes that hexadecimal text spells, two digits to a byte, the high
/// digit first.
pub open spec fn hex_bytes(text: Seq<char>) -> Seq<u8> {
    Seq::new(
        text.len() / 2,
        |i: int|
            (16 * hex_digit_value(text[2 * i]).unwrap() + hex_digit_value(
                text[2 * i + 1],
            ).unwrap()) as u8,
    )
}

/// What `base64::decode_config` with `URL_SAFE_NO_PAD` makes of the given
/// bytes: the decoded bytes, or `None` where it reports an error.
pub uninterp spec fn base64url_decoding(text: Seq<u8>) -> Option<Seq<u8>>;

/// The error of `hex::decode`, passed on unread.
#[verifier::external_type_specification]
#[verifier::external_body]
pub struct ExFromHexError(hex::FromHexError);

/// The error of `base64::decode_config`, passed on unread.
#[verifier::external_type_specification]
#[verifier::external_body]
pub struct ExDecodeError(base64::DecodeError);

/// The error of `core::str::from_utf8`, passed on unread.
#[verifier::external_type_specification]
#[verifier::external_body]
pub struct ExUtf8Error(core::str::Utf8Error);

/// `core::str::from_utf8` succeeds exactly on well-formed UTF-8, and the text
/// it returns is the given bytes, unchanged, read as text.
pub assume_specification<'a>[ core::str::from_utf8 ](bytes: &'a [u8]) -> (res: Result<
    &'a str,
    core::str::Utf8Error,
>)
    ensures
        res is Ok <==> valid_utf8(bytes@),
        res matches Ok(text) ==> text.spec_bytes() == bytes@,
;

/// `hex::decode` on text: it succeeds exactly when the text is an even number
/// of hexadecimal digits of either case, and then returns one byte for each
/// pair of digits, the first digit of a pair being the high half.
#[verifier::external_body]
pub(crate) fn decode_hex(text: &str) -> (res: Result<Vec<u8>, hex::FromHexError>)
    ensures
        res is Ok <==> is_hex_text(text@),
        res matches Ok(bytes) ==> bytes@ == hex_bytes(text@),
{
    hex::decode(text)
}

/// `base64::decode_config` with the configuration `URL_SAFE_NO_PAD`. What it
/// returns depends on the input bytes alone and is called
/// [`base64url_decoding`].
#[verifier::external_body]
pub(crate) fn decode_base64url(text: &[u8]) -> (res: Result<Vec<u8>, base64::DecodeError>)
    ensures
        res is Ok <==> base64url_decoding(text@) is Some,
        res matches Ok(bytes) ==> base64url_decoding(text@) == Some(bytes@),
{
    base64::decode_config(text, base64::URL_SAFE_NO_PAD)
}

} // verus!
