//! Phone authentication: the challenge payload a phone signs, the check of
//! its ECDSA signature, and the pairing / reconnection decision.
use vstd::prelude::*;
use vstd::utf8::encode_utf8;

use crate::crypto::{
    base64_standard_decoded, decode_base64, p256_key_accepted, p256_key_is_valid,
    p256_signature_accepted, p256_signature_is_valid, p256_signature_verifies, p256_verify,
};
use crate::pairing::{phone_record, store_at, upserted, PairedPhoneStore, PhoneRecord};
use crate::protocol::{identifiers_check, Cancel, Resume, ValidationError, resume_check};
use crate::text::{option_holds, str_equal};
use crate::PROTOCOL_VERSION;

verus! {

broadcast use vstd::string::group_string_axioms;

/// The message a phone answers the challenge with.
#[derive(Debug, Clone, PartialEq, Eq)]
pub struct AuthMessage {
    pub protocol_version: u16,
    /// `"pair"` for a first pairing, `"authenticate"` for a paired phone.
    pub message_type: String,
    pub phone_id: String,
    pub phone_name: String,
    /// The one-time token shown in the pairing QR code.
    pub pairing_token: Option<String>,
    /// Base64 DER SubjectPublicKeyInfo of the phone's key, sent when pairing.
    pub public_key_spki: Option<String>,
    /// `"control"` for a connection that only carries control messages.
    pub connection_mode: Option<String>,
    pub capabilities: Vec<String>,
    /// Base64 DER ECDSA signature of the challenge payload.
    pub signature: String,
}

/// The largest first message a phone may send.
pub const MAX_AUTH_MESSAGE_BYTES: usize = 65536;

impl AuthMessage {
    /// The phone asks to be paired with the one-time token.
    pub fn is_pairing(&self) -> (pairing: bool)
        ensures
            pairing == (self.message_type@ == "pair"@),
    {
        str_equal(self.message_type.as_str(), "pair")
    }

    /// A control connection carries control messages only and is not shown
    /// as an online phone.
    pub fn is_control(&self) -> (control: bool)
        ensures
            control == (self.connection_mode matches Some(m) && m@ == "control"@),
    {
        match &self.connection_mode {
            Some(mode) => str_equal(mode.as_str(), "control"),
            None => false,
        }
    }

    /// The phone answers switch requests with an acknowledgement.
    pub fn supports_switch_ack(&self) -> (supported: bool)
        ensures
            supported == exists|i: int| 0 <= i < self.capabilities@.len() && #[trigger] self.capabilities@[i]@ == "switch_ack"@,
    {
        let mut i: usize = 0;
        while i < self.capabilities.len()
            invariant
                i <= self.capabilities@.len(),
                forall|j: int| 0 <= j < i ==> #[trigger] self.capabilities@[j]@ != "switch_ack"@,
            decreases self.capabilities.len() - i,
        {
            if str_equal(self.capabilities[i].as_str(), "switch_ack") {
                return true;
            }
            i = i + 1;
        }
        false
    }
}

/// Why a phone was not let in.
#[derive(Debug, Clone, Copy, PartialEq, Eq, Structural)]
pub enum AuthError {
    UnsupportedProtocol,
    PairingTokenRequired,
    InvalidPairingToken,
    PublicKeyRequired,
    InvalidPublicKey,
    InvalidSignature,
    SignatureVerificationFailed,
    NotPaired,
    CannotSavePhone,
    InvalidAuthType,
}

/// The bytes a phone signs: a domain tag, then computer id, phone id and
/// challenge nonce, each after a NUL byte.
pub open spec fn auth_payload_bytes(pc_id: Seq<char>, phone_id: Seq<char>, nonce: Seq<char>) -> Seq<
    u8,
> {
    encode_utf8("flowtype-auth-v1"@) + seq![0u8] + encode_utf8(pc_id) + seq![0u8] + encode_utf8(
        phone_id,
    ) + seq![0u8] + encode_utf8(nonce)
}

/// The outcome of checking a base64 signature against a base64 key: the key
/// must decode and parse, then the signature must decode and parse, then
/// it must verify over the payload.
pub open spec fn signature_check(payload: Seq<u8>, signature: Seq<char>, public_key: Seq<char>) -> Result<
    (),
    AuthError,
> {
    match base64_standard_decoded(public_key) {
        None => Err(AuthError::InvalidPublicKey),
        Some(key_der) => if !p256_key_accepted(key_der) {
            Err(AuthError::InvalidPublicKey)
        } else {
            match base64_standard_decoded(signature) {
                None => Err(AuthError::InvalidSignature),
                Some(signature_der) => if !p256_signature_accepted(signature_der) {
                    Err(AuthError::InvalidSignature)
                } else if p256_signature_verifies(key_der, payload, signature_der) {
                    Ok(())
                } else {
                    Err(AuthError::SignatureVerificationFailed)
                },
            }
        },
    }
}

fn append_bytes(out: &mut Vec<u8>, bytes: &[u8])
    ensures
        final(out)@ == old(out)@ + bytes@,
{
    let mut index: usize = 0;
    while index < bytes.len()
        invariant
            index <= bytes@.len(),
            out@ == old(out)@ + bytes@.take(index as int),
        decreases bytes.len() - index,
    {
        out.push(bytes[index]);
        proof {
            assert(bytes@.take(index + 1) == bytes@.take(index as int).push(bytes@[index as int]));
        }
        index += 1;
    }
    proof {
        assert(bytes@.take(bytes@.len() as int) == bytes@);
    }
}

/// The challenge payload a phone signs.
pub fn auth_payload(pc_id: &str, phone_id: &str, nonce: &str) -> (payload: Vec<u8>)
    ensures
        payload@ == auth_payload_bytes(pc_id@, phone_id@, nonce@),
{
    let mut payload: Vec<u8> = Vec::new();
    append_bytes(&mut payload, "flowtype-auth-v1".as_bytes());
    payload.push(0);
    append_bytes(&mut payload, pc_id.as_bytes());
    payload.push(0);
    append_bytes(&mut payload, phone_id.as_bytes());
    payload.push(0);
    append_bytes(&mut payload, nonce.as_bytes());
    proof {
        assert(payload@ =~= auth_payload_bytes(pc_id@, phone_id@, nonce@));
    }
    payload
}

/// Checks the phone's signature of the challenge against a base64 public key.
pub fn verify_signature(pc_id: &str, auth: &AuthMessage, nonce: &str, public_key_spki: &str) -> (result: Result<
    (),
    AuthError,
>)
    ensures
        result == signature_check(
            auth_payload_bytes(pc_id@, auth.phone_id@, nonce@),
            auth.signature@,
            public_key_spki@,
        ),
{
    let public_key = match decode_base64(public_key_spki) {
        Some(bytes) => bytes,
        None => return Err(AuthError::InvalidPublicKey),
    };
    if !p256_key_is_valid(public_key.as_slice()) {
        return Err(AuthError::InvalidPublicKey);
    }
    let signature = match decode_base64(auth.signature.as_str()) {
        Some(bytes) => bytes,
        None => return Err(AuthError::InvalidSignature),
    };
    if !p256_signature_is_valid(signature.as_slice()) {
        return Err(AuthError::InvalidSignature);
    }
    let payload = auth_payload(pc_id, auth.phone_id.as_str(), nonce);
    if p256_verify(public_key.as_slice(), payload.as_slice(), signature.as_slice()) {
        Ok(())
    } else {
        Err(AuthError::SignatureVerificationFailed)
    }
}

/// Whether an optional text holds `expected`.
pub open spec fn holds(value: Option<String>, expected: Seq<char>) -> bool {
    value matches Some(text) && text@ == expected
}

/// The result of `authenticate_phone` on a given state.
pub open spec fn authentication_result(
    pc_id: Seq<char>,
    auth: AuthMessage,
    nonce: Seq<char>,
    pairing_token: Option<String>,
    phones: Seq<(Seq<char>, PhoneRecord)>,
) -> Result<(), AuthError> {
    let payload = auth_payload_bytes(pc_id, auth.phone_id@, nonce);
    if auth.protocol_version != PROTOCOL_VERSION {
        Err(AuthError::UnsupportedProtocol)
    } else if auth.message_type@ == "pair"@ {
        match auth.pairing_token {
            None => Err(AuthError::PairingTokenRequired),
            Some(supplied) => if !holds(pairing_token, supplied@) {
                Err(AuthError::InvalidPairingToken)
            } else {
                match auth.public_key_spki {
                    None => Err(AuthError::PublicKeyRequired),
                    Some(key) => signature_check(payload, auth.signature@, key@),
                }
            },
        }
    } else if auth.message_type@ == "authenticate"@ {
        match phone_record(phones, auth.phone_id@) {
            None => Err(AuthError::NotPaired),
            Some(record) => signature_check(payload, auth.signature@, record.public_key_spki),
        }
    } else {
        Err(AuthError::InvalidAuthType)
    }
}

/// Lets a phone in, or refuses it.
///
/// A pairing phone must present the current one-time token and its public
/// key and sign the challenge with that key; it then consumes the token and
/// is stored (re-pairing keeps the first pairing time). A paired phone must
/// sign the challenge with the key it paired with; its name and connection
/// time are then updated. On any refusal nothing changes. Saving the table
/// is left to the caller, which calls `restore_pairing_token` when that fails.
pub fn authenticate_phone(
    pc_id: &str,
    auth: &AuthMessage,
    nonce: &str,
    pairing_token: &mut Option<String>,
    phones: &mut PairedPhoneStore,
    now: u64,
) -> (result: Result<(), AuthError>)
    ensures
        result == authentication_result(pc_id@, *auth, nonce@, *old(pairing_token), old(phones)@),
        result is Err ==> *final(pairing_token) == *old(pairing_token) && final(phones)@ == old(
            phones,
        )@,
        result is Ok && auth.message_type@ == "pair"@ ==> *final(pairing_token) == None::<String>
            && final(phones)@ == store_at(
            old(phones)@,
            auth.phone_id@,
            upserted(
                phone_record(old(phones)@, auth.phone_id@),
                auth.phone_name@,
                auth.public_key_spki->Some_0@,
                now,
            ),
        ),
        result is Ok && auth.message_type@ != "pair"@ ==> *final(pairing_token) == *old(
            pairing_token,
        ) && final(phones)@ == store_at(
            old(phones)@,
            auth.phone_id@,
            PhoneRecord {
                phone_name: auth.phone_name@,
                last_connected: Some(now),
                ..phone_record(old(phones)@, auth.phone_id@)->Some_0
            },
        ),
{
    if auth.protocol_version != PROTOCOL_VERSION {
        return Err(AuthError::UnsupportedProtocol);
    }
    if str_equal(auth.message_type.as_str(), "pair") {
        let supplied = match &auth.pairing_token {
            Some(token) => token,
            None => return Err(AuthError::PairingTokenRequired),
        };
        if !option_holds(pairing_token, supplied.as_str()) {
            return Err(AuthError::InvalidPairingToken);
        }
        let public_key = match &auth.public_key_spki {
            Some(key) => key,
            None => return Err(AuthError::PublicKeyRequired),
        };
        verify_signature(pc_id, auth, nonce, public_key.as_str())?;
        *pairing_token = None;
        phones.upsert(auth.phone_id.as_str(), auth.phone_name.as_str(), public_key.as_str(), now);
        Ok(())
    } else if str_equal(auth.message_type.as_str(), "authenticate") {
        let public_key = match phones.public_key(auth.phone_id.as_str()) {
            Some(key) => key,
            None => return Err(AuthError::NotPaired),
        };
        verify_signature(pc_id, auth, nonce, public_key.as_str())?;
        match phones.mark_connected(auth.phone_id.as_str(), auth.phone_name.as_str(), now) {
            Ok(()) => Ok(()),
            Err(_) => Err(AuthError::CannotSavePhone),
        }
    } else {
        Err(AuthError::InvalidAuthType)
    }
}

/// Puts a consumed pairing token back after the new pairing could not be
/// saved, unless a new pairing has begun meanwhile.
pub fn restore_pairing_token(pairing_token: &mut Option<String>, supplied: &str)
    ensures
        match *old(pairing_token) {
            None => *final(pairing_token) matches Some(t) && t@ == supplied@,
            Some(_) => *final(pairing_token) == *old(pairing_token),
        },
{
    if pairing_token.is_none() {
        *pairing_token = Some(supplied.to_owned());
    }
}

/// Why a cancel or resume from a phone was refused.
#[derive(Debug, Clone, Copy, PartialEq, Eq, Structural)]
pub enum PhoneMessageError {
    /// The message itself is invalid.
    Invalid(ValidationError),
    /// The message names another phone than the one that authenticated.
    PhoneMismatch,
}

/// A cancel is taken only when valid and sent for the authenticated phone.
pub fn validate_cancel_for_phone(cancel: &Cancel, authenticated_phone_id: &str) -> (result: Result<
    (),
    PhoneMessageError,
>)
    ensures
        result == match identifiers_check(cancel.protocol_version, cancel.phone_id@, cancel.session_id@) {
            Err(e) => Err(PhoneMessageError::Invalid(e)),
            Ok(()) => if cancel.phone_id@ == authenticated_phone_id@ {
                Ok(())
            } else {
                Err(PhoneMessageError::PhoneMismatch)
            },
        },
{
    match cancel.validate() {
        Err(e) => Err(PhoneMessageError::Invalid(e)),
        Ok(()) => if str_equal(cancel.phone_id.as_str(), authenticated_phone_id) {
            Ok(())
        } else {
            Err(PhoneMessageError::PhoneMismatch)
        },
    }
}

/// A resume is taken only when valid and sent for the authenticated phone.
pub fn validate_resume_for_phone(resume: &Resume, authenticated_phone_id: &str) -> (result: Result<
    (),
    PhoneMessageError,
>)
    ensures
        result == match resume_check(*resume) {
            Err(e) => Err(PhoneMessageError::Invalid(e)),
            Ok(()) => if resume.phone_id@ == authenticated_phone_id@ {
                Ok(())
            } else {
                Err(PhoneMessageError::PhoneMismatch)
            },
        },
{
    match resume.validate() {
        Err(e) => Err(PhoneMessageError::Invalid(e)),
        Ok(()) => if str_equal(resume.phone_id.as_str(), authenticated_phone_id) {
            Ok(())
        } else {
            Err(PhoneMessageError::PhoneMismatch)
        },
    }
}

} // verus!
