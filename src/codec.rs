//! Base58 and base64 text forms of byte strings, and 32-byte addresses in base58.
use base64::Engine as _;
use vstd::prelude::*;

use crate::error::{AddressField, CoreError};

verus! {

/// The base58 text (Bitcoin alphabet) of a byte string, as `bs58::encode` writes it.
pub uninterp spec fn base58_text(b: Seq<u8>) -> Seq<char>;

/// What `bs58::decode` makes of a text: the bytes, or `None` where the text
/// holds a character outside the base58 alphabet.
pub uninterp spec fn base58_decoded(s: Seq<char>) -> Option<Seq<u8>>;

/// The padded base64 text (standard alphabet) of a byte string, as the
/// `STANDARD` engine of `base64` writes it.
pub uninterp spec fn base64_text(b: Seq<u8>) -> Seq<char>;

/// What the `STANDARD` engine of `base64` decodes a text to, or `None` where the
/// text holds a character outside the alphabet or is wrongly padded.
pub uninterp spec fn base64_decoded(s: Seq<char>) -> Option<Seq<u8>>;

#[verifier::external_type_specification]
#[verifier::external_body]
pub struct ExBs58DecodeError(bs58::decode::Error);

#[verifier::external_type_specification]
#[verifier::external_body]
pub struct ExBase64DecodeError(base64::DecodeError);

/// Relies on `bs58::encode(..).into_string()`: the base58 text of `b`, which
/// `bs58::decode` turns back into `b`.
#[verifier::external_body]
fn bs58_encode(b: &[u8]) -> (r: String)
    ensures
        r@ == base58_text(b@),
        base58_decoded(r@) == Some(b@),
{
    bs58::encode(b).into_string()
}

/// Relies on `bs58::decode(..).into_vec()`. Base58 text has one decoding and
/// the bytes one encoding, so decoded bytes encode back to the same text.
#[verifier::external_body]
fn bs58_decode(s: &str) -> (r: Result<Vec<u8>, bs58::decode::Error>)
    ensures
        match r {
            Ok(v) => base58_decoded(s@) == Some(v@) && base58_text(v@) == s@,
            Err(_) => base58_decoded(s@) is None,
        },
{
    bs58::decode(s).into_vec()
}

/// Relies on `base64::engine::general_purpose::STANDARD.encode`: the padded
/// base64 text of `b`, which the same engine decodes back into `b`.
#[verifier::external_body]
fn b64_encode(b: &[u8]) -> (r: String)
    ensures
        r@ == base64_text(b@),
        base64_decoded(r@) == Some(b@),
{
    base64::engine::general_purpose::STANDARD.encode(b)
}

/// Relies on `base64::engine::general_purpose::STANDARD.decode`, which demands
/// canonical padding and zero trailing bits, so decoded bytes encode back to
/// the same text.
#[verifier::external_body]
fn b64_decode(s: &str) -> (r: Result<Vec<u8>, base64::DecodeError>)
    ensures
        match r {
            Ok(v) => base64_decoded(s@) == Some(v@) && base64_text(v@) == s@,
            Err(_) => base64_decoded(s@) is None,
        },
{
    base64::engine::general_purpose::STANDARD.decode(s)
}

/// The bytes of an address text: its base58 decoding, where that is 32 bytes long.
pub open spec fn address_of(s: Seq<char>) -> Option<Seq<u8>> {
    match base58_decoded(s) {
        Some(v) => if v.len() == 32 {
            Some(v)
        } else {
            None
        },
        None => None,
    }
}

/// The base58 text of `b`. Decoding it gives `b` back.
pub fn encode_base58(b: &[u8]) -> (r: String)
    ensures
        r@ == base58_text(b@),
        base58_decoded(r@) == Some(b@),
{
    bs58_encode(b)
}

/// The bytes that a base58 text stands for; `InvalidEncoding` where a character
/// lies outside the alphabet.
pub fn decode_base58(s: &str) -> (r: Result<Vec<u8>, CoreError>)
    ensures
        match r {
            Ok(v) => base58_decoded(s@) == Some(v@) && base58_text(v@) == s@,
            Err(e) => base58_decoded(s@) is None && e == CoreError::InvalidEncoding,
        },
{
    match bs58_decode(s) {
        Ok(v) => Ok(v),
        Err(_) => Err(CoreError::InvalidEncoding),
    }
}

/// The padded base64 text of `b`. Decoding it gives `b` back.
pub fn encode_base64(b: &[u8]) -> (r: String)
    ensures
        r@ == base64_text(b@),
        base64_decoded(r@) == Some(b@),
{
    b64_encode(b)
}

/// The bytes that a padded base64 text stands for; `InvalidEncoding` on a
/// character outside the alphabet or on wrong padding.
pub fn decode_base64(s: &str) -> (r: Result<Vec<u8>, CoreError>)
    ensures
        match r {
            Ok(v) => base64_decoded(s@) == Some(v@) && base64_text(v@) == s@,
            Err(e) => base64_decoded(s@) is None && e == CoreError::InvalidEncoding,
        },
{
    match b64_decode(s) {
        Ok(v) => Ok(v),
        Err(_) => Err(CoreError::InvalidEncoding),
    }
}

/// The 32 bytes of an address text; `InvalidAddress(field)` where the text is
/// not base58 or does not decode to exactly 32 bytes.
pub fn parse_address(s: &str, field: AddressField) -> (r: Result<Vec<u8>, CoreError>)
    ensures
        match r {
            Ok(v) => address_of(s@) == Some(v@) && base58_text(v@) == s@,
            Err(e) => address_of(s@) is None && e == CoreError::InvalidAddress(field),
        },
{
    match bs58_decode(s) {
        Ok(v) => if v.len() == 32 {
            Ok(v)
        } else {
            Err(CoreError::InvalidAddress(field))
        },
        Err(_) => Err(CoreError::InvalidAddress(field)),
    }
}

} // verus!
