use base64::engine::general_purpose::{STANDARD, URL_SAFE_NO_PAD};
use base64::Engine;
use p256::ecdsa::signature::Signer;
use p256::ecdsa::{Signature, SigningKey};
use p256::pkcs8::EncodePublicKey;

use flowtype::auth::{
    auth_payload, authenticate_phone, restore_pairing_token, validate_cancel_for_phone,
    validate_resume_for_phone, verify_signature, AuthError, AuthMessage, PhoneMessageError,
};
use flowtype::ipc::InjectorResponse;
use flowtype::media::{clipboard_bitmap, make_dib, ClipboardImageError, ImageStart};
use sha2::{Digest, Sha256};
use flowtype::pairing::{
    deduplicate_paired_phones, upsert_paired_phone, PairedPhone, PairedPhoneStore,
};
use flowtype::protocol::{Cancel, ClientSessionState, Resume};
use flowtype::recovery::{classify_apply_recovery, classify_finish_recovery, ReconcileDecision};

fn signing_key() -> SigningKey {
    SigningKey::from_bytes((&[7_u8; 32]).into()).unwrap()
}

fn public_key_text(key: &SigningKey) -> String {
    let point = key.verifying_key().to_encoded_point(false);
    let public = p256::PublicKey::from_sec1_bytes(point.as_bytes()).unwrap();
    STANDARD.encode(public.to_public_key_der().unwrap().as_bytes())
}

fn auth_message(message_type: &str, phone_id: &str, signature: String) -> AuthMessage {
    AuthMessage {
        protocol_version: 1,
        message_type: message_type.to_owned(),
        phone_id: phone_id.to_owned(),
        phone_name: "test".to_owned(),
        pairing_token: None,
        public_key_spki: None,
        connection_mode: None,
        capabilities: Vec::new(),
        signature,
    }
}

fn sign(key: &SigningKey, pc_id: &str, phone_id: &str, nonce: &str) -> String {
    let payload = auth_payload(pc_id, phone_id, nonce);
    let signature: Signature = key.sign(&payload);
    STANDARD.encode(signature.to_der())
}

#[test]
fn resume_and_cancel_require_the_authenticated_phone() {
    let cancel = Cancel {
        protocol_version: flowtype::PROTOCOL_VERSION,
        phone_id: "phone-a".to_owned(),
        session_id: "session".to_owned(),
    };
    let resume = Resume {
        protocol_version: flowtype::PROTOCOL_VERSION,
        phone_id: "phone-a".to_owned(),
        session_id: "session".to_owned(),
        last_ack_sequence: 0,
        sequence: 1,
        full_text: "text".to_owned(),
        session_state: ClientSessionState::Active,
    };

    assert!(validate_cancel_for_phone(&cancel, "phone-a").is_ok());
    assert!(validate_resume_for_phone(&resume, "phone-a").is_ok());
    assert!(validate_cancel_for_phone(&cancel, "phone-b").is_err());
    assert!(validate_resume_for_phone(&resume, "phone-b").is_err());
    assert_eq!(
        validate_cancel_for_phone(&cancel, "phone-b"),
        Err(PhoneMessageError::PhoneMismatch)
    );
}

#[test]
fn verifies_a_phone_challenge_signature() {
    let key = signing_key();
    let auth = auth_message("authenticate", "phone", sign(&key, "pc", "phone", "nonce"));
    let public_key = public_key_text(&key);

    assert!(verify_signature("pc", &auth, "nonce", &public_key).is_ok());
    assert!(verify_signature("pc", &auth, "different", &public_key).is_err());
}

#[test]
fn signature_errors_name_what_is_wrong() {
    let key = signing_key();
    let auth = auth_message("authenticate", "phone", sign(&key, "pc", "phone", "nonce"));
    let public_key = public_key_text(&key);
    assert_eq!(
        verify_signature("pc", &auth, "nonce", "not base64!"),
        Err(AuthError::InvalidPublicKey)
    );
    assert_eq!(
        verify_signature("pc", &auth, "nonce", &STANDARD.encode([1_u8, 2, 3])),
        Err(AuthError::InvalidPublicKey)
    );
    let garbled = auth_message("authenticate", "phone", STANDARD.encode([1_u8, 2, 3]));
    assert_eq!(
        verify_signature("pc", &garbled, "nonce", &public_key),
        Err(AuthError::InvalidSignature)
    );
    assert_eq!(
        verify_signature("other-pc", &auth, "nonce", &public_key),
        Err(AuthError::SignatureVerificationFailed)
    );
}

#[test]
fn the_challenge_payload_joins_its_parts_with_nul_bytes() {
    assert_eq!(auth_payload("pc", "phone", "n"), b"flowtype-auth-v1\0pc\0phone\0n".to_vec());
}

#[test]
fn pairing_consumes_the_token_and_stores_the_phone() {
    let key = signing_key();
    let public_key = public_key_text(&key);
    let mut auth = auth_message("pair", "phone", sign(&key, "pc", "phone", "nonce"));
    auth.pairing_token = Some("token".to_owned());
    auth.public_key_spki = Some(public_key.clone());
    let mut token = Some("token".to_owned());
    let mut phones = PairedPhoneStore::new();

    assert_eq!(authenticate_phone("pc", &auth, "nonce", &mut token, &mut phones, 100), Ok(()));
    assert_eq!(token, None);
    let stored = phones.get("phone").unwrap();
    assert_eq!(stored.public_key_spki, public_key);
    assert_eq!(stored.paired_at, 100);

    // The token is single use.
    assert_eq!(
        authenticate_phone("pc", &auth, "nonce", &mut token, &mut phones, 101),
        Err(AuthError::InvalidPairingToken)
    );

    // A paired phone reconnects by signing with the same key.
    let again = auth_message("authenticate", "phone", sign(&key, "pc", "phone", "second"));
    assert_eq!(authenticate_phone("pc", &again, "second", &mut token, &mut phones, 200), Ok(()));
    assert_eq!(phones.get("phone").unwrap().last_connected, Some(200));
    assert_eq!(phones.get("phone").unwrap().paired_at, 100);

    let stranger = auth_message("authenticate", "stranger", sign(&key, "pc", "stranger", "n"));
    assert_eq!(
        authenticate_phone("pc", &stranger, "n", &mut token, &mut phones, 300),
        Err(AuthError::NotPaired)
    );
}

#[test]
fn a_failed_save_gives_the_pairing_token_back() {
    let mut token = None;
    restore_pairing_token(&mut token, "token");
    assert_eq!(token, Some("token".to_owned()));
    let mut newer = Some("newer".to_owned());
    restore_pairing_token(&mut newer, "token");
    assert_eq!(newer, Some("newer".to_owned()));
}

#[test]
fn re_pair_updates_existing_phone_without_resetting_pair_time() {
    let mut phones = PairedPhoneStore::new();
    phones.insert(
        "phone",
        PairedPhone {
            phone_name: "old name".to_owned(),
            public_key_spki: "old key".to_owned(),
            paired_at: 10,
            last_connected: Some(20),
        },
    );

    upsert_paired_phone(&mut phones, "phone", "new name", "new key", 30);

    assert_eq!(phones.len(), 1);
    let phone = phones.get("phone").unwrap();
    assert_eq!(phone.phone_name, "new name");
    assert_eq!(phone.public_key_spki, "new key");
    assert_eq!(phone.paired_at, 10);
    assert_eq!(phone.last_connected, Some(30));
}

#[test]
fn duplicate_public_key_keeps_the_most_recent_record() {
    let mut phones = PairedPhoneStore::new();
    phones.insert(
        "older",
        PairedPhone {
            phone_name: "same phone".to_owned(),
            public_key_spki: "same key".to_owned(),
            paired_at: 10,
            last_connected: Some(20),
        },
    );
    phones.insert(
        "newer",
        PairedPhone {
            phone_name: "same phone".to_owned(),
            public_key_spki: "same key".to_owned(),
            paired_at: 30,
            last_connected: Some(40),
        },
    );

    let (deduplicated, changed) = deduplicate_paired_phones(phones);

    assert!(changed);
    assert_eq!(deduplicated.len(), 1);
    assert!(deduplicated.contains_key("newer"));
}

fn image() -> ImageStart {
    ImageStart {
        protocol_version: 1,
        transfer_id: "transfer-1".to_owned(),
        phone_id: "phone".to_owned(),
        mime_type: "image/png".to_owned(),
        width: 100,
        height: 100,
        byte_length: 1024,
        sha256: "a".repeat(64),
        original: false,
    }
}

#[test]
fn validates_image_transfer_limits_and_phone() {
    let image = image();
    assert!(image.validate("phone").is_ok());
    assert!(image.validate("different-phone").is_err());

    let oversized = ImageStart {
        byte_length: 16 * 1024 * 1024,
        ..image
    };
    assert!(oversized.validate("phone").is_err());
}

#[test]
fn originals_may_be_larger_than_resized_images() {
    let original = ImageStart {
        byte_length: 16 * 1024 * 1024,
        original: true,
        ..image()
    };
    assert!(original.validate("phone").is_ok());
    let too_many_pixels = ImageStart {
        width: 10_000,
        height: 4_001,
        ..image()
    };
    assert!(too_many_pixels.validate("phone").is_err());
    let bad_digest = ImageStart {
        sha256: "g".repeat(64),
        ..image()
    };
    assert!(bad_digest.validate("phone").is_err());
}

#[test]
fn received_bytes_are_checked_against_the_announced_digest() {
    let bytes = b"png bytes".to_vec();
    let digest = format!("{:X}", Sha256::digest(&bytes));
    let announced = ImageStart {
        byte_length: bytes.len(),
        sha256: digest,
        ..image()
    };
    assert!(flowtype::media::image_matches(&announced, &bytes));
    let mut tampered = bytes.clone();
    tampered[0] ^= 1;
    assert!(!flowtype::media::image_matches(&announced, &tampered));
}

#[test]
fn recognizes_an_applied_snapshot_after_reconnecting_to_the_same_injector() {
    let state = InjectorResponse::SessionActive {
        session_id: "voice".to_owned(),
        sequence: 7,
        full_text: "修正后的文本".to_owned(),
    };

    assert_eq!(
        classify_apply_recovery("voice", 7, "修正后的文本", &state),
        ReconcileDecision::Applied,
    );
}

#[test]
fn retries_only_when_the_injector_is_behind_the_requested_snapshot() {
    let state = InjectorResponse::SessionActive {
        session_id: "voice".to_owned(),
        sequence: 6,
        full_text: "旧文本".to_owned(),
    };

    assert_eq!(
        classify_apply_recovery("voice", 7, "新文本", &state),
        ReconcileDecision::Retry,
    );
}

#[test]
fn does_not_replay_when_the_same_sequence_has_different_text() {
    let state = InjectorResponse::SessionActive {
        session_id: "voice".to_owned(),
        sequence: 7,
        full_text: "无法确认的文本".to_owned(),
    };

    assert_eq!(
        classify_apply_recovery("voice", 7, "手机正文", &state),
        ReconcileDecision::Unknown,
    );
}

#[test]
fn recognizes_a_finished_session_and_retries_an_unfinished_one() {
    let finished = InjectorResponse::SessionFinished {
        session_id: "voice".to_owned(),
        sequence: 7,
        full_text: "最终文本".to_owned(),
    };
    let active = InjectorResponse::SessionActive {
        session_id: "voice".to_owned(),
        sequence: 7,
        full_text: "最终文本".to_owned(),
    };

    assert_eq!(
        classify_finish_recovery("voice", 7, &finished),
        ReconcileDecision::Finished,
    );
    assert_eq!(
        classify_finish_recovery("voice", 7, &active),
        ReconcileDecision::Retry,
    );
}

#[test]
fn recognizes_a_finished_session_after_reconnecting() {
    let finished = InjectorResponse::SessionFinished {
        session_id: "voice".to_owned(),
        sequence: 8,
        full_text: "最终正文".to_owned(),
    };

    assert_eq!(
        classify_apply_recovery("voice", 8, "最终正文", &finished),
        ReconcileDecision::Finished,
    );
    assert_eq!(
        classify_apply_recovery("voice", 8, "不同正文", &finished),
        ReconcileDecision::Unknown,
    );
}

#[test]
fn creates_bottom_up_bgra_dib() {
    let rgba = [255, 0, 0, 255, 0, 255, 0, 128];
    let dib = make_dib(&rgba, 1, 2);
    assert_eq!(&dib[0..4], &40_u32.to_le_bytes());
    assert_eq!(&dib[40..44], &[0, 255, 0, 128]);
    assert_eq!(&dib[44..48], &[0, 0, 255, 255]);
}

#[test]
fn the_bitmap_header_describes_the_image() {
    let rgba = [1_u8; 2 * 3 * 4];
    let dib = make_dib(&rgba, 2, 3);
    assert_eq!(dib.len(), 40 + 24);
    assert_eq!(&dib[4..8], &2_u32.to_le_bytes());
    assert_eq!(&dib[8..12], &3_u32.to_le_bytes());
    assert_eq!(&dib[12..14], &1_u16.to_le_bytes());
    assert_eq!(&dib[14..16], &32_u16.to_le_bytes());
    assert_eq!(&dib[20..24], &24_u32.to_le_bytes());
}

#[test]
fn unsupported_clipboard_formats_are_refused() {
    assert_eq!(
        clipboard_bitmap(b"GIF89a", "image/gif"),
        Err(ClipboardImageError::UnsupportedFormat)
    );
    assert_eq!(
        clipboard_bitmap(b"not a png", "image/png"),
        Err(ClipboardImageError::CannotDecode)
    );
}

#[test]
fn pairing_links_carry_the_payload_in_url_safe_base64() {
    let uri = flowtype::network::pairing_uri(b"{\"pc_id\":\"pc\"}");
    assert_eq!(
        uri,
        format!("flowtype://pair?data={}", URL_SAFE_NO_PAD.encode(b"{\"pc_id\":\"pc\"}"))
    );
}

#[test]
fn connection_modes_and_capabilities_are_read_from_the_auth_message() {
    let mut auth = auth_message("authenticate", "phone", String::new());
    assert!(!auth.is_control());
    assert!(!auth.supports_switch_ack());
    auth.connection_mode = Some("control".to_owned());
    auth.capabilities = vec!["health_check".to_owned(), "switch_ack".to_owned()];
    assert!(auth.is_control());
    assert!(auth.supports_switch_ack());
    auth.connection_mode = Some("input".to_owned());
    auth.capabilities = vec!["health_check".to_owned()];
    assert!(!auth.is_control());
    assert!(!auth.supports_switch_ack());
}

#[test]
fn the_key_fingerprint_is_the_base64_sha256_of_the_key() {
    let spki = b"not a real key, only bytes";
    assert_eq!(
        flowtype::network::spki_fingerprint(spki),
        STANDARD.encode(Sha256::digest(spki))
    );
}

#[test]
fn tokens_are_fresh_url_safe_encodings_of_32_bytes() {
    let first = flowtype::crypto::random_token();
    let second = flowtype::crypto::random_token();
    assert_eq!(URL_SAFE_NO_PAD.decode(&first).unwrap().len(), 32);
    assert_eq!(URL_SAFE_NO_PAD.decode(&second).unwrap().len(), 32);
    assert_ne!(first, second);
}

#[test]
fn a_png_becomes_a_bottom_up_bitmap() {
    let mut pixels = image::RgbaImage::new(1, 2);
    pixels.put_pixel(0, 0, image::Rgba([255, 0, 0, 255]));
    pixels.put_pixel(0, 1, image::Rgba([0, 255, 0, 128]));
    let mut png = Vec::new();
    pixels
        .write_to(&mut std::io::Cursor::new(&mut png), image::ImageFormat::Png)
        .unwrap();
    let dib = clipboard_bitmap(&png, "image/png").unwrap();
    assert_eq!(dib, make_dib(&[255, 0, 0, 255, 0, 255, 0, 128], 1, 2));
    assert_eq!(&dib[40..44], &[0, 255, 0, 128]);
}

#[test]
fn a_stored_identity_reads_back_from_its_base64_texts() {
    let identity = flowtype::network::new_identity(
        "pc".to_string(),
        "Desk".to_string(),
        vec![1, 2, 3],
        vec![4, 5],
        b"public key",
    );
    assert_eq!(identity.spki_sha256, STANDARD.encode(Sha256::digest(b"public key")));
    let (cert, key) = flowtype::network::stored_identity_texts(&identity);
    assert_eq!(cert, STANDARD.encode([1, 2, 3]));
    assert_eq!(key, STANDARD.encode([4, 5]));
    let read = flowtype::network::identity_from_stored(
        identity.pc_id.clone(),
        identity.pc_name.clone(),
        &cert,
        &key,
        identity.spki_sha256.clone(),
    );
    assert_eq!(read, Some(identity.clone()));
    assert_eq!(
        flowtype::network::identity_from_stored(
            "pc".to_string(),
            "Desk".to_string(),
            "not base64!",
            &key,
            String::new()
        ),
        None
    );
}

#[test]
fn a_created_identity_has_a_fresh_id_and_a_pinned_key() {
    let first = flowtype::network::create_identity("Desk".to_string()).unwrap();
    let second = flowtype::network::create_identity("Desk".to_string()).unwrap();
    assert_eq!(first.pc_name, "Desk");
    assert_eq!(first.pc_id.len(), 36);
    assert_ne!(first.pc_id, second.pc_id);
    assert!(!first.cert_der.is_empty() && !first.key_der.is_empty());
    assert_eq!(STANDARD.decode(&first.spki_sha256).unwrap().len(), 32);
}

#[test]
fn the_pinned_fingerprint_is_that_of_the_stored_key() {
    let identity = flowtype::network::create_identity("Desk".to_string()).unwrap();
    let key = rcgen::KeyPair::try_from(identity.key_der.as_slice()).unwrap();
    use_spki(&identity.spki_sha256, &rcgen::PublicKeyData::subject_public_key_info(&key));
    assert_eq!(flowtype::network::tls_subject_name(), "flowtype.local");
}

fn use_spki(fingerprint: &str, spki: &[u8]) {
    assert_eq!(fingerprint, STANDARD.encode(Sha256::digest(spki)));
}

#[test]
fn only_pair_messages_ask_for_pairing() {
    assert!(auth_message("pair", "phone", String::new()).is_pairing());
    assert!(!auth_message("authenticate", "phone", String::new()).is_pairing());
}
