//! Hexadecimal encoding and decoding of byte strings, as the request carries
//! the peer public key and the response carries the shared secret.

use vstd::prelude::*;

verus! {

/// An ASCII hexadecimal digit, either case.
pub open spec fn is_hex_digit(b: u8) -> bool {
    (0x30 <= b <= 0x39) || (0x61 <= b <= 0x66) || (0x41 <= b <= 0x46)
}

/// Numeric value of a hexadecimal digit.
pub open spec fn hex_digit_value(b: u8) -> int
    recommends
        is_hex_digit(b),
{
    if 0x30 <= b <= 0x39 {
        b - 0x30
    } else if 0x61 <= b <= 0x66 {
        b - 0x61 + 10
    } else {
        b - 0x41 + 10
    }
}

/// A well-formed hexadecimal byte string: even length, hex digits throughout.
pub open spec fn is_hex_seq(s: Seq<u8>) -> bool {
    s.len() % 2 == 0 && (forall|i: int| 0 <= i < s.len() ==> is_hex_digit(#[trigger] s[i]))
}

/// The bytes a well-formed hexadecimal string denotes, one per digit pair.
pub open spec fn spec_hex_decode(s: Seq<u8>) -> Seq<u8>
    recommends
        is_hex_seq(s),
{
    Seq::new(
        (s.len() / 2) as nat,
        |i: int| (hex_digit_value(s[2 * i]) * 16 + hex_digit_value(s[2 * i + 1])) as u8,
    )
}

/// The lowercase digit for a value below 16.
pub open spec fn lower_hex_digit(v: int) -> u8
    recommends
        0 <= v < 16,
{
    if v < 10 {
        (0x30 + v) as u8
    } else {
        (0x61 + v - 10) as u8
    }
}

/// Lowercase hexadecimal rendering of a byte string, two digits per byte.
pub open spec fn spec_hex_encode(b: Seq<u8>) -> Seq<u8> {
    Seq::new(
        (b.len() * 2) as nat,
        |i: int|
            if i % 2 == 0 {
                lower_hex_digit(b[i / 2] as int / 16)
            } else {
                lower_hex_digit(b[i / 2] as int % 16)
            },
    )
}

#[verifier::external_type_specification]
#[verifier::external_body]
pub struct ExFromHexError(hex::FromHexError);

/// Relies on hex::decode: it succeeds exactly on an even-length string of
/// ASCII hexadecimal digits (either case), turning each digit pair into one
/// byte, high digit first.
#[verifier::external_body]
pub(crate) fn hex_decode(data: &[u8]) -> (r: Result<Vec<u8>, hex::FromHexError>)
    ensures
        r is Ok <==> is_hex_seq(data@),
        r matches Ok(b) ==> b@ == spec_hex_decode(data@),
{
    hex::decode(data)
}

/// Relies on hex::encode: it renders each input byte as two lowercase
/// hexadecimal digits, high digit first.
#[verifier::external_body]
pub(crate) fn hex_encode(data: &[u8]) -> (r: Vec<u8>)
    requires
        data@.len() * 2 <= usize::MAX,
    ensures
        r@ == spec_hex_encode(data@),
{
    hex::encode(data).into_bytes()
}

} // verus!
