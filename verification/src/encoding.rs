//! The base64 framing of the attestation service's requests and responses,
//! computed by the `base64` crate.

use vstd::prelude::*;
use crate::attestation::TabascoError;

verus! {

/// The symbol of the standard base64 alphabet for the six-bit value `v`.
pub open spec fn base64_symbol(v: int) -> char {
    if v < 26 {
        (65 + v) as char
    } else if v < 52 {
        (97 + v - 26) as char
    } else if v < 62 {
        (48 + v - 52) as char
    } else if v == 62 {
        '+'
    } else {
        '/'
    }
}

/// The standard base64 encoding (with padding) of `bytes`: each group of
/// three bytes gives four symbols of six bits each; a final group of one or
/// two bytes is filled up with zero bits and padded with `=`.
pub open spec fn base64_encoding(bytes: Seq<u8>) -> Seq<char>
    decreases bytes.len(),
{
    if bytes.len() == 0 {
        seq![]
    } else if bytes.len() == 1 {
        let b0 = bytes[0] as int;
        seq![base64_symbol(b0 / 4), base64_symbol((b0 % 4) * 16), '=', '=']
    } else if bytes.len() == 2 {
        let (b0, b1) = (bytes[0] as int, bytes[1] as int);
        seq![
            base64_symbol(b0 / 4),
            base64_symbol((b0 % 4) * 16 + b1 / 16),
            base64_symbol((b1 % 16) * 4),
            '=',
        ]
    } else {
        let (b0, b1, b2) = (bytes[0] as int, bytes[1] as int, bytes[2] as int);
        seq![
            base64_symbol(b0 / 4),
            base64_symbol((b0 % 4) * 16 + b1 / 16),
            base64_symbol((b1 % 16) * 4 + b2 / 64),
            base64_symbol(b2 % 64),
        ] + base64_encoding(bytes.skip(3))
    }
}

/// The bytes that the standard base64 text `text` encodes, or `None` where
/// `text` is not valid standard base64.
pub uninterp spec fn base64_decoding(text: Seq<char>) -> Option<Seq<u8>>;

#[verifier::external_type_specification]
#[verifier::external_body]
pub struct ExDecodeError(base64::DecodeError);

/// Calls `base64::encode`. Claimed of it: the result is the standard base64
/// encoding of `bytes`, as `base64_encoding` writes it out, and decoding it with `base64::decode` gives `bytes`
/// back, as the crate's documentation of the standard configuration says.
/// `base64::encode` panics where the encoded length overflows or cannot be
/// allocated; `requires` keeps the input well below that.
#[verifier::external_body]
fn base64_encode(bytes: &[u8]) -> (res: String)
    requires
        bytes@.len() * 2 <= isize::MAX,
    ensures
        res@ == base64_encoding(bytes@),
        base64_decoding(res@) == Some(bytes@),
{
    base64::encode(bytes)
}

/// Calls `base64::decode`. Claimed of it: it succeeds exactly on valid
/// standard base64 text, with the bytes that the text encodes (named, not
/// written out). Which `DecodeError` comes out on invalid text is not stated.
#[verifier::external_body]
fn base64_decode(text: &str) -> (res: Result<Vec<u8>, base64::DecodeError>)
    ensures
        match base64_decoding(text@) {
            Some(b) => res matches Ok(v) && v@ == b,
            None => res is Err,
        },
{
    base64::decode(text)
}

/// Decodes the base64 body of a request to the attestation service.
pub fn decode_request(body: &str) -> (r: Result<Vec<u8>, TabascoError>)
    ensures
        match base64_decoding(body@) {
            Some(b) => r matches Ok(v) && v@ == b,
            None => r == Err::<Vec<u8>, TabascoError>(TabascoError::Base64DecodeError),
        },
{
    match base64_decode(body) {
        Ok(bytes) => Ok(bytes),
        Err(_) => Err(TabascoError::Base64DecodeError),
    }
}

/// Encodes a serialized response of the attestation service in base64; the
/// text decodes back to `message`.
pub fn encode_response(message: &[u8]) -> (r: String)
    requires
        message@.len() * 2 <= isize::MAX,
    ensures
        r@ == base64_encoding(message@),
        base64_decoding(r@) == Some(message@),
{
    base64_encode(message)
}

} // verus!
