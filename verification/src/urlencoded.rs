//! The `application/x-www-form-urlencoded` byte serializer, which the request
//! to Amazon Bedrock applies to the model identifier. The encoding is done by
//! the `url` crate; what it returns is stated here in full.

use vstd::prelude::*;
use vstd::string::*;

verus! {

/// Whether the serializer leaves a byte as it is: `*`, `-`, `.`, `_`, the
/// digits and the ASCII letters.
pub open spec fn unchanged(byte: u8) -> bool {
    byte == 0x2A || byte == 0x2D || byte == 0x2E || byte == 0x5F || (0x30 <= byte <= 0x39) || (0x41
        <= byte <= 0x5A) || (0x61 <= byte <= 0x7A)
}

/// The upper-case hexadecimal digit for a value below 16.
pub open spec fn upper_hex_digit(nibble: u8) -> char {
    if nibble < 10 {
        (48 + nibble) as u8 as char
    } else {
        (55 + nibble) as u8 as char
    }
}

/// What the serializer writes for one byte: the byte itself where it is left
/// unchanged, `+` for a space, and else `%` with two upper-case hexadecimal
/// digits.
pub open spec fn serialized_byte(byte: u8) -> Seq<char> {
    if unchanged(byte) {
        seq![byte as char]
    } else if byte == 0x20 {
        seq!['+']
    } else {
        seq!['%', upper_hex_digit(byte / 16), upper_hex_digit(byte % 16)]
    }
}

/// What the serializer writes for a sequence of bytes.
pub open spec fn form_urlencoded(bytes: Seq<u8>) -> Seq<char>
    decreases bytes.len(),
{
    if bytes.len() == 0 {
        Seq::empty()
    } else {
        form_urlencoded(bytes.drop_last()) + serialized_byte(bytes.last())
    }
}

/// `url::form_urlencoded::byte_serialize` on the UTF-8 bytes of `input`, its
/// pieces collected into one string: each byte is written as
/// [`serialized_byte`] says.
#[verifier::external_body]
pub(crate) fn byte_serialize(input: &str) -> (r: String)
    ensures
        r@ == form_urlencoded(input.spec_bytes()),
{
    url::form_urlencoded::byte_serialize(input.as_bytes()).collect()
}

} // verus!
