//! The transport encoding of image bytes: base64 with the standard
//! alphabet and padding, as produced by the base64 crate's `STANDARD`
//! engine.
//!
//! The encoding itself is done by the outside crate; its result is
//! named `base64_of` here, and the round trip — decoding an encoding
//! yields the original bytes — is part of the decoder's contract.

use base64::Engine;
use vstd::prelude::*;

use crate::errors::ScreenshotError;

verus! {

/// The transport form of a byte sequence: its base64 rendering with
/// the standard alphabet and padding.
pub uninterp spec fn base64_of(bytes: Seq<u8>) -> Seq<char>;

#[verifier::external_type_specification]
#[verifier::external_body]
pub struct ExDecodeError(base64::DecodeError);

/// Relies on base64's `Engine::encode` with the `STANDARD` engine: the
/// rendering is a pure function of the bytes, named `base64_of`.
#[verifier::external_body]
fn base64_encode(bytes: &[u8]) -> (r: String)
    ensures
        r@ == base64_of(bytes@),
{
    base64::engine::general_purpose::STANDARD.encode(bytes)
}

/// Relies on base64's `Engine::decode` with the `STANDARD` engine: it
/// accepts exactly the canonical encodings (standard alphabet, padding
/// required, no trailing bits), returns the unique bytes whose encoding
/// is the input, and errors on every other input.
#[verifier::external_body]
fn base64_decode(text: &str) -> (r: Result<Vec<u8>, base64::DecodeError>)
    ensures
        r matches Ok(v) ==> text@ == base64_of(v@),
        r matches Ok(v) ==> forall|b: Seq<u8>| text@ == base64_of(b) ==> v@ == b,
        r is Err ==> forall|b: Seq<u8>| text@ != base64_of(b),
{
    base64::engine::general_purpose::STANDARD.decode(text)
}

/// Encodes raw image bytes into their transport form.
pub fn encode_transport(bytes: &Vec<u8>) -> (r: String)
    ensures
        r@ == base64_of(bytes@),
{
    base64_encode(bytes.as_slice())
}

/// Decodes a transport-encoded string back into raw bytes.
///
/// Exactly the encodings produced by `encode_transport` decode, and
/// they decode to the bytes they were produced from; everything else is
/// a `DecodeFailed` error.
pub fn decode_transport(text: &str) -> (r: Result<Vec<u8>, ScreenshotError>)
    ensures
        r matches Ok(v) ==> text@ == base64_of(v@),
        forall|b: Seq<u8>| text@ == base64_of(b) ==> (r matches Ok(v) && v@ == b),
        r is Err ==> r == Err::<Vec<u8>, ScreenshotError>(ScreenshotError::DecodeFailed),
{
    match base64_decode(text) {
        Ok(v) => Ok(v),
        Err(_) => Err(ScreenshotError::DecodeFailed),
    }
}

} // verus!
