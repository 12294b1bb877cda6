//! The cryptographic and encoding primitives the library borrows from
//! `base64`, `sha2`, `p256` and `rand`, each behind a small trusted wrapper.
use base64::engine::general_purpose::{STANDARD, URL_SAFE_NO_PAD};
use base64::Engine;
use p256::ecdsa::signature::Verifier;
use p256::ecdsa::{Signature, VerifyingKey};
use p256::pkcs8::DecodePublicKey;
use rand::RngCore;
use sha2::{Digest, Sha256};
use vstd::prelude::*;

verus! {

/// What `base64::engine::general_purpose::STANDARD.decode` gives for a text:
/// the bytes it stands for, or `None` where the crate reports a decode error.
pub uninterp spec fn base64_standard_decoded(text: Seq<char>) -> Option<Seq<u8>>;

/// What `base64::engine::general_purpose::STANDARD.encode` gives for bytes.
pub uninterp spec fn base64_standard_encoded(bytes: Seq<u8>) -> Seq<char>;

/// What `base64::engine::general_purpose::URL_SAFE_NO_PAD.encode` gives for bytes.
pub uninterp spec fn base64_url_encoded(bytes: Seq<u8>) -> Seq<char>;

/// The SHA-256 digest `sha2::Sha256::digest` computes for bytes.
pub uninterp spec fn sha256_of(bytes: Seq<u8>) -> Seq<u8>;

/// Whether `p256::ecdsa::VerifyingKey::from_public_key_der` accepts the bytes
/// as a DER SubjectPublicKeyInfo of a P-256 key.
pub uninterp spec fn p256_key_accepted(spki_der: Seq<u8>) -> bool;

/// Whether `p256::ecdsa::Signature::from_der` accepts the bytes as an
/// ASN.1 DER ECDSA signature.
pub uninterp spec fn p256_signature_accepted(signature_der: Seq<u8>) -> bool;

/// Whether `Verifier::verify` of the key in `spki_der` accepts the DER
/// signature over `message` (ECDSA P-256 with SHA-256).
pub uninterp spec fn p256_signature_verifies(
    spki_der: Seq<u8>,
    message: Seq<u8>,
    signature_der: Seq<u8>,
) -> bool;

/// Calls `STANDARD.decode` (padded standard-alphabet base64). The contract
/// only names the outcome: the decoded bytes, or `None` on a decode error.
#[verifier::external_body]
pub(crate) fn decode_base64(text: &str) -> (bytes: Option<Vec<u8>>)
    ensures
        match bytes {
            Some(b) => base64_standard_decoded(text@) == Some(b@),
            None => base64_standard_decoded(text@) is None,
        },
{
    STANDARD.decode(text).ok()
}

/// Calls `STANDARD.encode`; the contract names the result.
#[verifier::external_body]
pub(crate) fn encode_base64(bytes: &[u8]) -> (text: String)
    ensures
        text@ == base64_standard_encoded(bytes@),
{
    STANDARD.encode(bytes)
}

/// Calls `URL_SAFE_NO_PAD.encode`; the contract names the result.
#[verifier::external_body]
pub(crate) fn encode_base64_url(bytes: &[u8]) -> (text: String)
    ensures
        text@ == base64_url_encoded(bytes@),
{
    URL_SAFE_NO_PAD.encode(bytes)
}

/// Calls `Sha256::digest`. The contract names the digest and states its
/// length, 32 bytes, which the output type `GenericArray<u8, U32>` fixes.
#[verifier::external_body]
pub(crate) fn sha256(bytes: &[u8]) -> (digest: Vec<u8>)
    ensures
        digest@ == sha256_of(bytes@),
        digest@.len() == 32,
{
    Sha256::digest(bytes).to_vec()
}

/// Calls `VerifyingKey::from_public_key_der` and reports whether it parsed.
#[verifier::external_body]
pub(crate) fn p256_key_is_valid(spki_der: &[u8]) -> (valid: bool)
    ensures
        valid == p256_key_accepted(spki_der@),
{
    VerifyingKey::from_public_key_der(spki_der).is_ok()
}

/// Calls `Signature::from_der` and reports whether it parsed.
#[verifier::external_body]
pub(crate) fn p256_signature_is_valid(signature_der: &[u8]) -> (valid: bool)
    ensures
        valid == p256_signature_accepted(signature_der@),
{
    Signature::from_der(signature_der).is_ok()
}

/// Calls `Verifier::verify` of p256's ECDSA verifying key. The key and the
/// signature arrive as the DER bytes that the two parsers above accepted and
/// are turned into the crate's types here; the contract names the verdict.
#[verifier::external_body]
pub(crate) fn p256_verify(spki_der: &[u8], message: &[u8], signature_der: &[u8]) -> (verified: bool)
    requires
        p256_key_accepted(spki_der@),
        p256_signature_accepted(signature_der@),
    ensures
        verified == p256_signature_verifies(spki_der@, message@, signature_der@),
{
    match (VerifyingKey::from_public_key_der(spki_der), Signature::from_der(signature_der)) {
        (Ok(key), Ok(signature)) => key.verify(message, &signature).is_ok(),
        _ => false,
    }
}

/// Fills 32 bytes from `rand::rng()` (`RngCore::fill_bytes`). Nothing is
/// promised of the bytes but their number.
#[verifier::external_body]
pub(crate) fn random_bytes() -> (bytes: Vec<u8>)
    ensures
        bytes@.len() == 32,
{
    let mut bytes = [0_u8; 32];
    rand::rng().fill_bytes(&mut bytes);
    bytes.to_vec()
}

/// A fresh one-time token: 32 random bytes in unpadded URL-safe base64.
pub fn random_token() -> (token: String)
    ensures
        exists|bytes: Seq<u8>| bytes.len() == 32 && token@ == base64_url_encoded(bytes),
{
    let bytes = random_bytes();
    encode_base64_url(bytes.as_slice())
}

/// The lowercase hexadecimal digit of a value below 16.
pub open spec fn hex_digit(value: int) -> char {
    if value < 10 {
        (value + 48) as char
    } else {
        (value + 87) as char
    }
}

/// Two lowercase hexadecimal digits per byte, high nibble first.
pub open spec fn hex_lower(bytes: Seq<u8>) -> Seq<char>
    decreases bytes.len(),
{
    if bytes.len() == 0 {
        Seq::empty()
    } else {
        hex_lower(bytes.drop_last()) + seq![
            hex_digit(bytes.last() as int / 16),
            hex_digit(bytes.last() as int % 16),
        ]
    }
}

fn hex_char(value: u8) -> (c: char)
    requires
        value < 16,
    ensures
        c == hex_digit(value as int),
{
    if value < 10 {
        (value + 48) as char
    } else {
        (value + 87) as char
    }
}

/// Lowercase hexadecimal text of bytes, as `format!("{:x}", digest)` prints
/// a digest.
pub fn to_hex_lower(bytes: &[u8]) -> (text: String)
    ensures
        text@ == hex_lower(bytes@),
{
    let mut chars: Vec<char> = Vec::new();
    let mut index: usize = 0;
    while index < bytes.len()
        invariant
            index <= bytes@.len(),
            chars@ == hex_lower(bytes@.take(index as int)),
        decreases bytes.len() - index,
    {
        let byte = bytes[index];
        chars.push(hex_char(byte / 16));
        chars.push(hex_char(byte % 16));
        proof {
            assert(bytes@.take(index + 1).drop_last() == bytes@.take(index as int));
        }
        index += 1;
    }
    proof {
        assert(bytes@.take(bytes@.len() as int) == bytes@);
    }
    crate::text::string_from_chars(chars.as_slice())
}

} // verus!
