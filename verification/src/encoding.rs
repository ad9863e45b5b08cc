//! Text and binary encodings that the core leaves to other crates: base64,
//! hexadecimal, UTF-8 and the DER form of an ECDSA signature.

use vstd::prelude::*;
use vstd::utf8::{decode_utf8, valid_utf8};

verus! {

/// Failure of a base64 decoding.
#[verifier::external_type_specification]
#[verifier::external_body]
pub struct ExDecodeError(base64::DecodeError);

/// Failures queued by OpenSSL.
#[verifier::external_type_specification]
#[verifier::external_body]
pub struct ExErrorStack(openssl::error::ErrorStack);

/// The padded base64 text, in the standard alphabet, of `data`.
pub uninterp spec fn base64_encoded(data: Seq<u8>) -> Seq<char>;

/// The bytes that the padded base64 text `text` stands for, if it is
/// well-formed.
pub uninterp spec fn base64_decoded(text: Seq<char>) -> Option<Seq<u8>>;

/// The two integers `(r, s)` of a DER-encoded ECDSA signature, each as its
/// shortest big-endian byte string, if `der` is such an encoding.
pub uninterp spec fn ecdsa_der_parts(der: Seq<u8>) -> Option<(Seq<u8>, Seq<u8>)>;

/// Whether the base64 text of `len` bytes has a length that fits the
/// machine's word.
pub open spec fn base64_encodable(len: nat) -> bool {
    (len / 3) * 4 + 4 <= usize::MAX
}

/// The lowercase hexadecimal digit of a value below sixteen.
pub open spec fn hex_digit(nibble: u8) -> char {
    if nibble < 10 {
        (('0' as u8) + nibble) as char
    } else {
        (('a' as u8) + (nibble - 10)) as char
    }
}

/// Two lowercase hexadecimal digits for each byte, the high half first.
pub open spec fn hex_lower(bytes: Seq<u8>) -> Seq<char> {
    Seq::new(
        2 * bytes.len(),
        |i: int|
            if i % 2 == 0 {
                hex_digit(bytes[i / 2] / 16)
            } else {
                hex_digit(bytes[i / 2] % 16)
            },
    )
}

/// `base64::Engine::encode` on the engine `STANDARD`: the result is the
/// standard padded base64 text of `data`. The call panics where the length
/// of that text overflows, which `requires` leaves out.
#[verifier::external_body]
pub(crate) fn base64_encode(data: &[u8]) -> (out: String)
    requires
        base64_encodable(data@.len()),
    ensures
        out@ == base64_encoded(data@),
{
    base64::Engine::encode(&base64::engine::general_purpose::STANDARD, data)
}

/// `base64::Engine::decode` on the engine `STANDARD`: the bytes of a
/// well-formed text, an error for any other.
#[verifier::external_body]
pub(crate) fn base64_decode(text: &str) -> (out: Result<Vec<u8>, base64::DecodeError>)
    ensures
        match out {
            Ok(bytes) => base64_decoded(text@) == Some(bytes@),
            Err(_) => base64_decoded(text@) is None,
        },
{
    base64::Engine::decode(&base64::engine::general_purpose::STANDARD, text)
}

/// `openssl::ecdsa::EcdsaSig::from_der`, with `r()` and `s()` read out
/// through `BigNumRef::to_vec`: the two integers of the signature as
/// big-endian bytes, or OpenSSL's error where `der` does not parse.
#[verifier::external_body]
pub(crate) fn ecdsa_sig_from_der(der: &[u8]) -> (out: Result<
    (Vec<u8>, Vec<u8>),
    openssl::error::ErrorStack,
>)
    ensures
        match out {
            Ok(parts) => ecdsa_der_parts(der@) == Some((parts.0@, parts.1@)),
            Err(_) => ecdsa_der_parts(der@) is None,
        },
{
    let sig = openssl::ecdsa::EcdsaSig::from_der(der)?;
    Ok((sig.r().to_vec(), sig.s().to_vec()))
}

/// `hex::encode`: each byte becomes two lowercase hexadecimal digits.
#[verifier::external_body]
pub(crate) fn hex_encode(bytes: &[u8]) -> (out: String)
    ensures
        out@ == hex_lower(bytes@),
{
    hex::encode(bytes)
}

/// `String::from_utf8`: the text that `bytes` encode, where they are valid
/// UTF-8, and nothing otherwise.
#[verifier::external_body]
pub(crate) fn string_from_utf8(bytes: Vec<u8>) -> (out: Option<String>)
    ensures
        out is Some <==> valid_utf8(bytes@),
        out matches Some(text) ==> text@ == decode_utf8(bytes@),
{
    String::from_utf8(bytes).ok()
}

} // verus!
