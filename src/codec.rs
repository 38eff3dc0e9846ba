use base64::Engine;
use vstd::prelude::*;

use crate::errors::CodecError;

verus! {

#[verifier::external_type_specification]
#[verifier::external_body]
pub struct ExBase64DecodeError(base64::DecodeError);

/// The character of the standard base64 alphabet for a six-bit value:
/// `A`-`Z`, `a`-`z`, `0`-`9`, `+`, `/`.
pub open spec fn base64_digit(v: int) -> char {
    if v < 26 {
        ((v + 65) as u8) as char
    } else if v < 52 {
        ((v - 26 + 97) as u8) as char
    } else if v < 62 {
        ((v - 52 + 48) as u8) as char
    } else if v == 62 {
        '+'
    } else {
        '/'
    }
}

/// The padded, standard-alphabet base64 text of a byte sequence: each
/// group of three bytes becomes four characters of six bits each, and a
/// last group of one or two bytes is filled with zero bits and `=`.
pub open spec fn base64_of(b: Seq<u8>) -> Seq<char>
    decreases b.len(),
{
    let x = b[0] as int;
    let y = b[1] as int;
    let z = b[2] as int;
    if b.len() == 0 {
        Seq::empty()
    } else if b.len() == 1 {
        seq![base64_digit(x / 4), base64_digit((x % 4) * 16), '=', '=']
    } else if b.len() == 2 {
        seq![
            base64_digit(x / 4),
            base64_digit((x % 4) * 16 + y / 16),
            base64_digit((y % 16) * 4),
            '=',
        ]
    } else {
        seq![
            base64_digit(x / 4),
            base64_digit((x % 4) * 16 + y / 16),
            base64_digit((y % 16) * 4 + z / 64),
            base64_digit(z % 64),
        ] + base64_of(b.subrange(3, b.len() as int))
    }
}

/// Relies on base64's `general_purpose::STANDARD.encode`: padded encoding
/// over the standard alphabet, as `base64_of` states it.
#[verifier::external_body]
fn standard_encode(b: &[u8]) -> (r: String)
    ensures
        r@ == base64_of(b@),
{
    base64::engine::general_purpose::STANDARD.encode(b)
}

/// Relies on base64's `general_purpose::STANDARD.decode`, configured to
/// require canonical padding and to reject trailing bits: it accepts exactly
/// the texts that `STANDARD.encode` produces, and returns the bytes they
/// were made from.
#[verifier::external_body]
fn standard_decode(s: &str) -> (r: Result<Vec<u8>, base64::DecodeError>)
    ensures
        forall|b: Seq<u8>| base64_of(b) == s@ ==> (r is Ok && r->Ok_0@ == b),
        r is Ok ==> base64_of(r->Ok_0@) == s@,
{
    base64::engine::general_purpose::STANDARD.decode(s)
}

/// Whether `s` is the base64 text of some byte sequence.
pub open spec fn is_base64_text(s: Seq<char>) -> bool {
    exists|b: Seq<u8>| base64_of(b) == s
}

/// Encodes bytes as padded standard base64.
pub fn encode_binary(b: &[u8]) -> (r: String)
    ensures
        r@ == base64_of(b@),
{
    standard_encode(b)
}

/// Decodes padded standard base64 text; any other text is `Malformed`.
pub fn decode_binary(s: &str) -> (r: Result<Vec<u8>, CodecError>)
    ensures
        r is Ok <==> is_base64_text(s@),
        r is Ok ==> base64_of(r->Ok_0@) == s@,
        forall|b: Seq<u8>| base64_of(b) == s@ ==> (r is Ok && r->Ok_0@ == b),
        r is Err ==> r == Err::<Vec<u8>, CodecError>(CodecError::Malformed),
{
    match standard_decode(s) {
        Ok(v) => Ok(v),
        Err(_) => Err(CodecError::Malformed),
    }
}

/// Decoding the encoding of any byte sequence gives that sequence back.
pub fn round_trip_binary(b: &[u8]) -> (r: Vec<u8>)
    ensures
        r@ == b@,
{
    let text = encode_binary(b);
    match decode_binary(text.as_str()) {
        Ok(v) => v,
        Err(_) => {
            assert(false);
            Vec::new()
        },
    }
}

} // verus!
